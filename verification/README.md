# rust_tools

Two small tools whose rules are verified with Verus.

* **Code slicer** (`src/slicer.rs`): parses a Rust source file with `syn`,
  extracts one top-level item by name (printed with `prettyplease` or as its
  syntax tree), prints the whole file, or writes a CSV summary of its items
  with the `csv` crate (one record per top-level item). Whether `prettyplease`
  can print what a request prints is decided from a walk of its syntax tree
  (raw-token nodes, `macro_rules!` bodies); the request is refused exactly when
  it cannot.
* **Item store** (`src/store.rs`): the SQL statements behind a small REST API
  over `metas`, `items` and `links` tables, with their parameters in order, and
  the HTTP reply each database outcome gets.

Supporting modules: `src/text.rs` (trimming, first line, joining, decimal
notation over character sequences), `src/csv_table.rs` (the CSV text layout and
the writer calls), `src/syntax.rs` (the parsed file, the calls into `syn`,
`quote` and `prettyplease`, and the decision whether `prettyplease` can print a
tree), and the schema-creation steps in `src/store.rs`, which the server runs in
order and stops at the first failure.

`app/` holds the command line (`clap`), the file and standard-stream I/O, and
the HTTP server (`axum`, `tokio`, `sqlx`, `chrono`, `dotenvy`); run it with
`serve` as first argument to start the server, otherwise it slices.
