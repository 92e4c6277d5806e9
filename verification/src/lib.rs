//! Source-code slicing and the request/response rules of a small item store.
pub mod text;
pub mod csv_table;
pub mod syntax;
pub mod slicer;
pub mod store;
