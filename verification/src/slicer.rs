//! Slicing a Rust source file: extracting one top-level item by name,
//! printing the whole file, or summarising its items as CSV.
use vstd::prelude::*;
use crate::syntax::{
    ItemKind, SourceFile, is_named_kind, has_ident_kind, has_attrs_kind, item_count_of, item_kind_of,
    item_ident_of, item_start_line_of, item_end_line_of, item_attr_texts_of, rendered_item_of,
    rendered_file_of, parses_as_rust_file, rust_parse_error, item_printable, file_printable,
    is_item_debug_text, is_file_debug_text, item_count, item_kind, item_ident, item_start_line,
    item_end_line, item_attr_texts, item_attr_texts_other, render_item, render_file, parse_source,
    item_debug_text, file_debug_text, check_item_printable, check_file_printable,
};
use crate::text::{
    trim, trim_end_char, first_line, join, decimal, chars_of, string_from_chars, trim_chars,
    trim_end_char_chars, first_line_chars, join_texts, decimal_chars,
};
use crate::csv_table::{
    csv_text, csv_line, csv_field, csv_records, record_view, csv_writer, csv_write_record, csv_into_text,
    lemma_csv_text_append, lemma_plain_field,
};

verus! {

/// The name under which a kind of item appears in the CSV summary.
pub open spec fn kind_label(k: ItemKind) -> Seq<char> {
    match k {
        ItemKind::Function => "Function"@,
        ItemKind::Struct => "Struct"@,
        ItemKind::Enum => "Enum"@,
        ItemKind::Module => "Module"@,
        ItemKind::Trait => "Trait"@,
        ItemKind::Macro => "Macro"@,
        ItemKind::Impl => "Impl"@,
        ItemKind::Use => "Use"@,
        ItemKind::Const => "Const"@,
        ItemKind::Static => "Static"@,
        ItemKind::TypeAlias => "Type"@,
        ItemKind::Union => "Union"@,
        ItemKind::ExternCrate => "ExternCrate"@,
        ItemKind::ForeignMod => "ForeignMod"@,
        ItemKind::TraitAlias => "TraitAlias"@,
        ItemKind::Verbatim => "Verbatim"@,
        ItemKind::Other => "Other"@,
    }
}

fn kind_label_text(k: ItemKind) -> (r: String)
    ensures
        r@ == kind_label(k),
{
    match k {
        ItemKind::Function => String::from_str("Function"),
        ItemKind::Struct => String::from_str("Struct"),
        ItemKind::Enum => String::from_str("Enum"),
        ItemKind::Module => String::from_str("Module"),
        ItemKind::Trait => String::from_str("Trait"),
        ItemKind::Macro => String::from_str("Macro"),
        ItemKind::Impl => String::from_str("Impl"),
        ItemKind::Use => String::from_str("Use"),
        ItemKind::Const => String::from_str("Const"),
        ItemKind::Static => String::from_str("Static"),
        ItemKind::TypeAlias => String::from_str("Type"),
        ItemKind::Union => String::from_str("Union"),
        ItemKind::ExternCrate => String::from_str("ExternCrate"),
        ItemKind::ForeignMod => String::from_str("ForeignMod"),
        ItemKind::TraitAlias => String::from_str("TraitAlias"),
        ItemKind::Verbatim => String::from_str("Verbatim"),
        ItemKind::Other => String::from_str("Other"),
    }
}

/// Item `i` of the file is one that can be looked up by name, and its name is `name`.
pub open spec fn item_matches(text: Seq<char>, i: int, name: Seq<char>) -> bool {
    is_named_kind(item_kind_of(text, i)) && item_ident_of(text, i) == Some(name)
}

/// The first of the items below `n` that matches `name`.
pub open spec fn first_match(text: Seq<char>, name: Seq<char>, n: nat) -> Option<int>
    decreases n,
{
    if n == 0 {
        None
    } else {
        match first_match(text, name, (n - 1) as nat) {
            Some(i) => Some(i),
            None => if item_matches(text, n - 1, name) { Some(n - 1) } else { None },
        }
    }
}

/// The item that a lookup by `name` selects in the parsed `text`.
pub open spec fn selected_item(text: Seq<char>, name: Seq<char>) -> Option<int> {
    first_match(text, name, item_count_of(text))
}

/// A lookup by name selects the first top-level item of that name, among
/// functions, structs, enums, modules, traits and macros; it selects none
/// exactly when no such item has the name.
pub proof fn lemma_selected_item_is_first(text: Seq<char>, name: Seq<char>)
    ensures
        selected_item(text, name) matches Some(i) ==> {
            &&& 0 <= i < item_count_of(text)
            &&& item_matches(text, i, name)
            &&& forall|j: int| 0 <= j < i ==> !item_matches(text, j, name)
        },
        selected_item(text, name) is None <==> forall|j: int|
            0 <= j < item_count_of(text) ==> !item_matches(text, j, name),
{
    lemma_first_match(text, name, item_count_of(text));
}

proof fn lemma_first_match(text: Seq<char>, name: Seq<char>, n: nat)
    ensures
        first_match(text, name, n) matches Some(i) ==> {
            &&& 0 <= i < n
            &&& item_matches(text, i, name)
            &&& forall|j: int| 0 <= j < i ==> !item_matches(text, j, name)
        },
        first_match(text, name, n) is None <==> forall|j: int|
            0 <= j < n ==> !item_matches(text, j, name),
    decreases n,
{
    if n > 0 {
        lemma_first_match(text, name, (n - 1) as nat);
    }
}

proof fn lemma_first_match_stable(text: Seq<char>, name: Seq<char>, m: nat, n: nat)
    requires
        m <= n,
        first_match(text, name, m) is Some,
    ensures
        first_match(text, name, n) == first_match(text, name, m),
    decreases n - m,
{
    if m < n {
        lemma_first_match_stable(text, name, m, (n - 1) as nat);
    }
}

/// Every function, struct, enum, module, trait or macro can be looked up by
/// its name: the lookup then selects that item or an earlier one of the same
/// name, itself one of these six kinds; items of other kinds are never selected.
pub proof fn lemma_lookup_finds_named_items(text: Seq<char>, name: Seq<char>, i: int)
    requires
        0 <= i < item_count_of(text),
        item_ident_of(text, i) == Some(name),
        item_kind_of(text, i) == ItemKind::Function || item_kind_of(text, i) == ItemKind::Struct
            || item_kind_of(text, i) == ItemKind::Enum || item_kind_of(text, i) == ItemKind::Module
            || item_kind_of(text, i) == ItemKind::Trait || item_kind_of(text, i) == ItemKind::Macro,
    ensures
        selected_item(text, name) matches Some(j) && {
            &&& 0 <= j <= i
            &&& item_ident_of(text, j) == Some(name)
            &&& item_kind_of(text, j) == ItemKind::Function || item_kind_of(text, j) == ItemKind::Struct
                || item_kind_of(text, j) == ItemKind::Enum || item_kind_of(text, j) == ItemKind::Module
                || item_kind_of(text, j) == ItemKind::Trait || item_kind_of(text, j) == ItemKind::Macro
        },
{
    lemma_selected_item_is_first(text, name);
    assert(item_matches(text, i, name));
}

/// Looks up a top-level item by name: the index of the first function, struct,
/// enum, module, trait or macro named `name`.
pub(crate) fn find_item(file: &SourceFile, name: &str) -> (r: Option<usize>)
    ensures
        match r {
            Some(i) => selected_item(file@, name@) == Some(i as int),
            None => selected_item(file@, name@) is None,
        },
{
    let wanted = String::from_str(name);
    let n = item_count(file);
    let mut i: usize = 0;
    while i < n
        invariant
            i <= n,
            n == item_count_of(file@),
            wanted@ == name@,
            first_match(file@, name@, i as nat) is None,
        decreases n - i,
    {
        let kind = item_kind(file, i);
        if kind == ItemKind::Function || kind == ItemKind::Struct || kind == ItemKind::Enum
            || kind == ItemKind::Module || kind == ItemKind::Trait || kind == ItemKind::Macro {
            match item_ident(file, i) {
                Some(ident) => {
                    if ident == wanted {
                        proof {
                            assert(first_match(file@, name@, (i + 1) as nat) == Some(i as int));
                            lemma_first_match_stable(file@, name@, (i + 1) as nat, n as nat);
                        }
                        return Some(i);
                    }
                }
                None => {}
            }
        }
        i = i + 1;
    }
    None
}

/// The CSV name of an `impl` block: the first line of its printed form,
/// trimmed, without the `{` that ends it (the `impl Trait for Type` line when
/// the block has no attributes).
pub open spec fn impl_heading(rendered: Seq<char>) -> Seq<char> {
    trim(trim_end_char(trim(first_line(rendered)), '{'))
}

/// The CSV name of a `use` item: its printed form, trimmed, without the final `;`.
pub open spec fn use_heading(rendered: Seq<char>) -> Seq<char> {
    trim_end_char(trim(rendered), ';')
}

/// The first column of item `i` in the summary: the heading of an `impl`
/// block, the statement of a `use`, the name of a named item, and nothing for
/// a macro invocation without a name, an `extern` block or a raw (`Verbatim`)
/// item.
pub open spec fn summary_name(text: Seq<char>, i: int) -> Seq<char> {
    let k = item_kind_of(text, i);
    if k == ItemKind::Impl {
        impl_heading(rendered_item_of(text, i))
    } else if k == ItemKind::Use {
        use_heading(rendered_item_of(text, i))
    } else if has_ident_kind(k) {
        match item_ident_of(text, i) {
            Some(n) => n,
            None => Seq::empty(),
        }
    } else {
        Seq::empty()
    }
}

/// The summary record of item `i`: name, kind, first and last line, and its
/// attributes separated by single spaces.
pub open spec fn summary_record(text: Seq<char>, i: int) -> Seq<Seq<char>> {
    seq![
        summary_name(text, i),
        kind_label(item_kind_of(text, i)),
        decimal(item_start_line_of(text, i)),
        decimal(item_end_line_of(text, i)),
        if has_attrs_kind(item_kind_of(text, i)) {
            join(item_attr_texts_of(text, i), seq![' '])
        } else {
            Seq::empty()
        },
    ]
}

pub open spec fn summary_header() -> Seq<Seq<char>> {
    seq!["item_name"@, "item_type"@, "start_line"@, "end_line"@, "attributes"@]
}

/// The records of the items below `n`, one per item, in source order.
pub open spec fn summary_records_below(text: Seq<char>, n: nat) -> Seq<Seq<Seq<char>>>
    decreases n,
{
    if n == 0 {
        Seq::empty()
    } else {
        summary_records_below(text, (n - 1) as nat).push(summary_record(text, n - 1))
    }
}

/// The CSV summary of a parsed file: the header, then one record for every
/// top-level item, in source order.
pub open spec fn csv_summary(text: Seq<char>) -> Seq<Seq<Seq<char>>> {
    seq![summary_header()] + summary_records_below(text, item_count_of(text))
}

/// The kinds whose summary name comes from `prettyplease`.
pub open spec fn printed_in_summary(k: ItemKind) -> bool {
    k == ItemKind::Impl || k == ItemKind::Use
}

/// `prettyplease` can print every item whose summary name it gives.
pub open spec fn summary_printable(text: Seq<char>) -> bool {
    forall|i: int| 0 <= i < item_count_of(text) && printed_in_summary(#[trigger] item_kind_of(text, i))
        ==> item_printable(text, i)
}

/// The CSV summary begins with its header line, the same for every file;
/// the item records follow it.
pub proof fn lemma_summary_begins_with_header(text: Seq<char>)
    ensures
        csv_text(csv_summary(text)) == "item_name,item_type,start_line,end_line,attributes\n"@
            + csv_text(summary_records_below(text, item_count_of(text))),
{
    let h = summary_header();
    reveal_strlit("item_name");
    reveal_strlit("item_type");
    reveal_strlit("start_line");
    reveal_strlit("end_line");
    reveal_strlit("attributes");
    reveal_strlit("item_name,item_type,start_line,end_line,attributes\n");
    lemma_plain_field("item_name"@);
    lemma_plain_field("item_type"@);
    lemma_plain_field("start_line"@);
    lemma_plain_field("end_line"@);
    lemma_plain_field("attributes"@);
    let fields = h.map_values(|f: Seq<char>| csv_field(f));
    assert(fields =~= h);
    reveal_strlit("item_name,item_type,start_line,end_line,attributes");
    let (a, b, c, d, e) = ("item_name"@, "item_type"@, "start_line"@, "end_line"@, "attributes"@);
    let sep = seq![','];
    assert(seq![a, b].drop_last() =~= seq![a]);
    assert(seq![a, b, c].drop_last() =~= seq![a, b]);
    assert(seq![a, b, c, d].drop_last() =~= seq![a, b, c]);
    assert(h.drop_last() =~= seq![a, b, c, d]);
    assert(join(seq![a], sep) == a);
    assert(join(seq![a, b], sep) == a + sep + b);
    assert(join(seq![a, b, c], sep) == a + sep + b + sep + c);
    assert(join(seq![a, b, c, d], sep) == a + sep + b + sep + c + sep + d);
    assert(join(h, sep) == a + sep + b + sep + c + sep + d + sep + e);
    assert(join(h, sep) =~= "item_name,item_type,start_line,end_line,attributes"@);
    assert(csv_line(h) =~= "item_name,item_type,start_line,end_line,attributes\n"@);
    let rest = summary_records_below(text, item_count_of(text));
    lemma_csv_text_append(seq![h], rest);
    assert(seq![h].drop_last() =~= Seq::<Seq<Seq<char>>>::empty());
    reveal_with_fuel(csv_text, 2);
    assert(csv_text(seq![h]) =~= csv_line(h));
}

proof fn lemma_records_below(text: Seq<char>, n: nat)
    ensures
        summary_records_below(text, n).len() == n,
        forall|i: int| 0 <= i < n ==> #[trigger] summary_records_below(text, n)[i] == summary_record(text, i),
    decreases n,
{
    if n > 0 {
        lemma_records_below(text, (n - 1) as nat);
    }
}

/// Row 0 of the summary is its header, and row `i + 1` is the record of
/// top-level item `i`, for every item and no other row.
pub proof fn lemma_summary_rows(text: Seq<char>)
    ensures
        csv_summary(text).len() == item_count_of(text) + 1,
        csv_summary(text)[0] == seq!["item_name"@, "item_type"@, "start_line"@, "end_line"@, "attributes"@],
        forall|i: int| 0 <= i < item_count_of(text) ==> #[trigger] csv_summary(text)[i + 1] == summary_record(
            text,
            i,
        ),
{
    lemma_records_below(text, item_count_of(text));
    let rows = csv_summary(text);
    assert forall|i: int| 0 <= i < item_count_of(text) implies #[trigger] rows[i + 1] == summary_record(text, i) by {
        assert(rows[i + 1] == summary_records_below(text, item_count_of(text))[i]);
    }
}

/// The item-type column of the row of each top-level item is the label of its
/// kind; the labels of different kinds differ.
pub proof fn lemma_summary_kind_column(text: Seq<char>, i: int)
    requires
        0 <= i < item_count_of(text),
    ensures
        csv_summary(text)[i + 1].len() == 5,
        ({
            let k = item_kind_of(text, i);
            let label = csv_summary(text)[i + 1][1];
            &&& k == ItemKind::Function ==> label == "Function"@
            &&& k == ItemKind::Struct ==> label == "Struct"@
            &&& k == ItemKind::Enum ==> label == "Enum"@
            &&& k == ItemKind::Module ==> label == "Module"@
            &&& k == ItemKind::Trait ==> label == "Trait"@
            &&& k == ItemKind::Macro ==> label == "Macro"@
            &&& k == ItemKind::Impl ==> label == "Impl"@
            &&& k == ItemKind::Use ==> label == "Use"@
            &&& k == ItemKind::Const ==> label == "Const"@
            &&& k == ItemKind::Static ==> label == "Static"@
            &&& k == ItemKind::TypeAlias ==> label == "Type"@
            &&& k == ItemKind::Union ==> label == "Union"@
            &&& k == ItemKind::ExternCrate ==> label == "ExternCrate"@
            &&& k == ItemKind::ForeignMod ==> label == "ForeignMod"@
            &&& k == ItemKind::TraitAlias ==> label == "TraitAlias"@
            &&& k == ItemKind::Verbatim ==> label == "Verbatim"@
            &&& k == ItemKind::Other ==> label == "Other"@
        }),
        forall|j: int| 0 <= j < item_count_of(text) && item_kind_of(text, j) != item_kind_of(text, i)
            ==> #[trigger] csv_summary(text)[j + 1][1] != csv_summary(text)[i + 1][1],
{
    lemma_summary_rows(text);
    assert forall|j: int| 0 <= j < item_count_of(text) && item_kind_of(text, j) != item_kind_of(text, i)
        implies #[trigger] csv_summary(text)[j + 1][1] != csv_summary(text)[i + 1][1] by {
        lemma_labels_differ(item_kind_of(text, i), item_kind_of(text, j));
    }
}

proof fn lemma_labels_differ(a: ItemKind, b: ItemKind)
    requires
        a != b,
    ensures
        kind_label(a) != kind_label(b),
{
    reveal_strlit("Function");
    reveal_strlit("Struct");
    reveal_strlit("Enum");
    reveal_strlit("Module");
    reveal_strlit("Trait");
    reveal_strlit("Macro");
    reveal_strlit("Impl");
    reveal_strlit("Use");
    reveal_strlit("Const");
    reveal_strlit("Static");
    reveal_strlit("Type");
    reveal_strlit("Union");
    reveal_strlit("ExternCrate");
    reveal_strlit("ForeignMod");
    reveal_strlit("TraitAlias");
    reveal_strlit("Verbatim");
    reveal_strlit("Other");
    let (la, lb) = (kind_label(a), kind_label(b));
    if la == lb {
        assert(la.len() == lb.len());
        assert(la[0] == lb[0]);
        if la.len() > 1 {
            assert(la[1] == lb[1]);
        }
        if la.len() > 2 {
            assert(la[2] == lb[2]);
        }
    }
}

/// The name column of the row of each top-level item: the identifier of a
/// function, struct, enum, module, trait, constant, static, type alias, union,
/// extern crate, trait alias or named macro; the first printed line of an
/// `impl` block, trimmed and without its closing `{`; the printed `use`
/// statement, trimmed and without its `;`; and nothing otherwise. The line
/// columns are the decimal line numbers where the item starts and ends.
pub proof fn lemma_summary_name_and_line_columns(text: Seq<char>, i: int)
    requires
        0 <= i < item_count_of(text),
    ensures
        ({
            let k = item_kind_of(text, i);
            let row = csv_summary(text)[i + 1];
            &&& (k == ItemKind::Function || k == ItemKind::Struct || k == ItemKind::Enum || k
                == ItemKind::Module || k == ItemKind::Trait || k == ItemKind::Const || k
                == ItemKind::Static || k == ItemKind::TypeAlias || k == ItemKind::Union || k
                == ItemKind::ExternCrate || k == ItemKind::TraitAlias || k == ItemKind::Macro) ==> row[0]
                == match item_ident_of(text, i) {
                Some(n) => n,
                None => Seq::<char>::empty(),
            }
            &&& k == ItemKind::Impl ==> row[0] == trim(trim_end_char(trim(first_line(rendered_item_of(text, i))), '{'))
            &&& k == ItemKind::Use ==> row[0] == trim_end_char(trim(rendered_item_of(text, i)), ';')
            &&& (k == ItemKind::ForeignMod || k == ItemKind::Verbatim || k == ItemKind::Other) ==> row[0]
                == Seq::<char>::empty()
            &&& row[2] == decimal(item_start_line_of(text, i))
            &&& row[3] == decimal(item_end_line_of(text, i))
        }),
{
    lemma_summary_rows(text);
}

/// The attributes column of the row of each top-level item: for every kind
/// that carries outer attributes (all but raw items and unknown kinds), the
/// token text of each attribute, in order, joined by single spaces.
pub proof fn lemma_summary_attributes_column(text: Seq<char>, i: int)
    requires
        0 <= i < item_count_of(text),
    ensures
        ({
            let k = item_kind_of(text, i);
            let row = csv_summary(text)[i + 1];
            &&& (k == ItemKind::Function || k == ItemKind::Struct || k == ItemKind::Enum || k
                == ItemKind::Module || k == ItemKind::Trait || k == ItemKind::Macro || k == ItemKind::Impl
                || k == ItemKind::Use || k == ItemKind::Const || k == ItemKind::Static || k
                == ItemKind::TypeAlias || k == ItemKind::Union || k == ItemKind::ExternCrate || k
                == ItemKind::ForeignMod || k == ItemKind::TraitAlias) ==> row[4] == join(
                item_attr_texts_of(text, i),
                seq![' '],
            )
            &&& (k == ItemKind::Verbatim || k == ItemKind::Other) ==> row[4] == Seq::<char>::empty()
        }),
{
    lemma_summary_rows(text);
}

fn impl_heading_text(rendered: &String) -> (r: String)
    ensures
        r@ == impl_heading(rendered@),
{
    let cs = chars_of(rendered.as_str());
    let line = first_line_chars(cs.as_slice());
    let t = trim_chars(line.as_slice());
    let u = trim_end_char_chars(t.as_slice(), '{');
    let v = trim_chars(u.as_slice());
    string_from_chars(v.as_slice())
}

fn use_heading_text(rendered: &String) -> (r: String)
    ensures
        r@ == use_heading(rendered@),
{
    let cs = chars_of(rendered.as_str());
    let t = trim_chars(cs.as_slice());
    let u = trim_end_char_chars(t.as_slice(), ';');
    string_from_chars(u.as_slice())
}

fn summary_record_of(file: &SourceFile, i: usize) -> (r: Vec<String>)
    requires
        i < item_count_of(file@),
        printed_in_summary(item_kind_of(file@, i as int)) ==> item_printable(file@, i as int),
    ensures
        record_view(r@) == summary_record(file@, i as int),
{
    let kind = item_kind(file, i);
    let name = match kind {
        ItemKind::Impl => impl_heading_text(&render_item(file, i)),
        ItemKind::Use => use_heading_text(&render_item(file, i)),
        ItemKind::ForeignMod | ItemKind::Verbatim | ItemKind::Other => String::new(),
        _ => match item_ident(file, i) {
            Some(n) => n,
            None => String::new(),
        },
    };
    let start = string_from_chars(decimal_chars(item_start_line(file, i) as u64).as_slice());
    let end = string_from_chars(decimal_chars(item_end_line(file, i) as u64).as_slice());
    let joined = match kind {
        ItemKind::Verbatim | ItemKind::Other => String::new(),
        ItemKind::Function | ItemKind::Struct | ItemKind::Enum | ItemKind::Module | ItemKind::Trait
        | ItemKind::Macro | ItemKind::Impl | ItemKind::Use => {
            let attrs = item_attr_texts(file, i);
            string_from_chars(join_texts(&attrs, ' ').as_slice())
        }
        _ => {
            let attrs = item_attr_texts_other(file, i);
            string_from_chars(join_texts(&attrs, ' ').as_slice())
        }
    };
    let mut r: Vec<String> = Vec::new();
    r.push(name);
    r.push(kind_label_text(kind));
    r.push(start);
    r.push(end);
    r.push(joined);
    assert(record_view(r@) =~= summary_record(file@, i as int));
    r
}

fn summary_header_record() -> (r: Vec<String>)
    ensures
        record_view(r@) == summary_header(),
{
    let mut r: Vec<String> = Vec::new();
    r.push(String::from_str("item_name"));
    r.push(String::from_str("item_type"));
    r.push(String::from_str("start_line"));
    r.push(String::from_str("end_line"));
    r.push(String::from_str("attributes"));
    assert(record_view(r@) =~= summary_header());
    r
}

/// The CSV summary of all top-level items of the file, as the `csv` crate
/// writes it: a header, then one record per item, in source order.
pub(crate) fn generate_csv(file: &SourceFile) -> (r: String)
    requires
        summary_printable(file@),
    ensures
        r@ == csv_text(csv_summary(file@)),
{
    let mut w = csv_writer();
    let header = summary_header_record();
    let _ = csv_write_record(&mut w, &header);
    let n = item_count(file);
    let mut i: usize = 0;
    while i < n
        invariant
            i <= n,
            n == item_count_of(file@),
            summary_printable(file@),
            csv_records(w) == seq![summary_header()] + summary_records_below(file@, i as nat),
        decreases n - i,
    {
        let record = summary_record_of(file, i);
        let _ = csv_write_record(&mut w, &record);
        assert(csv_records(w) =~= seq![summary_header()] + summary_records_below(file@, (i + 1) as nat));
        i = i + 1;
    }
    match csv_into_text(w) {
        Some(s) => s,
        None => String::new(),
    }
}

/// Checks, item by item, that `prettyplease` can print every item whose
/// summary name it gives.
fn check_summary_printable(file: &SourceFile) -> (r: bool)
    ensures
        r == summary_printable(file@),
{
    let n = item_count(file);
    let mut i: usize = 0;
    while i < n
        invariant
            i <= n,
            n == item_count_of(file@),
            forall|j: int| 0 <= j < i && printed_in_summary(#[trigger] item_kind_of(file@, j))
                ==> item_printable(file@, j),
        decreases n - i,
    {
        let kind = item_kind(file, i);
        if kind == ItemKind::Impl || kind == ItemKind::Use {
            if !check_item_printable(file, i) {
                return false;
            }
        }
        i = i + 1;
    }
    true
}

/// What the slicer prints.
#[derive(Clone, Copy, Debug, PartialEq, Eq, Structural)]
pub enum OutputFormat {
    /// The extracted code, printed by `prettyplease`.
    Code,
    /// The `Debug` form of the syntax tree.
    Ast,
    /// A CSV summary of all top-level items.
    Csv,
}

/// One run of the slicer: where the source came from, where the output goes,
/// the item to extract (the whole file when absent) and the format.
#[derive(Debug)]
pub struct SliceRequest {
    pub input: Option<String>,
    pub output: Option<String>,
    pub item_name: Option<String>,
    pub format: OutputFormat,
}

/// A successful run: the text to write (to the output file, or to standard
/// output) and a notice for standard output.
#[derive(Debug)]
pub struct SliceReport {
    pub text: String,
    pub notice: Option<String>,
}

/// A failed run, with the message for standard error.
#[derive(Debug)]
pub enum SliceError {
    /// The source is not a Rust file.
    Parse(String),
    /// No top-level item has the requested name.
    ItemNotFound(String),
    /// What is to be printed holds syntax that `prettyplease` cannot print:
    /// raw tokens that `syn` keeps unparsed, or a `macro_rules!` body that is
    /// not a run of rules.
    Unprintable(String),
}

pub open spec fn opt_text(o: Option<String>) -> Option<Seq<char>> {
    match o {
        Some(s) => Some(s@),
        None => None,
    }
}

pub open spec fn parse_failure_message(text: Seq<char>) -> Seq<char> {
    "Error parsing source file: "@ + rust_parse_error(text)
}

/// How the input is named in messages: its path, or `stdin`.
pub open spec fn input_label(input: Option<Seq<char>>) -> Seq<char> {
    match input {
        Some(p) => p,
        None => "stdin"@,
    }
}

pub open spec fn not_found_message(name: Seq<char>, label: Seq<char>) -> Seq<char> {
    "Item '"@ + name + "' not found in '"@ + label + "'"@
}

pub open spec fn extracted_message(name: Seq<char>, path: Seq<char>) -> Seq<char> {
    "Successfully extracted item '"@ + name + "' to '"@ + path + "'"@
}

/// The slicer's messages: a parse failure gives the parser's message after
/// "Error parsing source file: "; a missing item is reported as
/// "Item '<name>' not found in '<input path or stdin>'"; an item written to a
/// file is reported as "Successfully extracted item '<name>' to '<path>'".
pub proof fn lemma_messages(text: Seq<char>, name: Seq<char>, input: Option<Seq<char>>, path: Seq<char>)
    ensures
        parse_failure_message(text) == "Error parsing source file: "@ + rust_parse_error(text),
        input is None ==> not_found_message(name, input_label(input)) == "Item '"@ + name
            + "' not found in '"@ + "stdin"@ + "'"@,
        input is Some ==> not_found_message(name, input_label(input)) == "Item '"@ + name
            + "' not found in '"@ + input->0 + "'"@,
        extracted_message(name, path) == "Successfully extracted item '"@ + name + "' to '"@ + path + "'"@,
{
}

fn not_found_text(name: &String, input: &Option<String>) -> (r: String)
    ensures
        r@ == not_found_message(name@, input_label(opt_text(*input))),
{
    let mut m = String::from_str("Item '");
    m.append(name.as_str());
    m.append("' not found in '");
    match input {
        Some(p) => m.append(p.as_str()),
        None => m.append("stdin"),
    }
    m.append("'");
    m
}

fn extracted_text(name: &String, path: &String) -> (r: String)
    ensures
        r@ == extracted_message(name@, path@),
{
    let mut m = String::from_str("Successfully extracted item '");
    m.append(name.as_str());
    m.append("' to '");
    m.append(path.as_str());
    m.append("'");
    m
}

/// `prettyplease` can print everything the request prints through it: the
/// items the summary names through it, the extracted item, or the whole file.
pub open spec fn request_printable(text: Seq<char>, request: SliceRequest) -> bool {
    match request.format {
        OutputFormat::Csv => summary_printable(text),
        OutputFormat::Ast => true,
        OutputFormat::Code => match request.item_name {
            None => file_printable(text),
            Some(name) => match selected_item(text, name@) {
                Some(i) => item_printable(text, i),
                None => true,
            },
        },
    }
}

/// What a request needs `prettyplease` to print: nothing for the syntax tree;
/// every `impl` and `use` item for the CSV summary (and nothing else); the
/// whole file for code without an item name; the selected item for code with
/// one, and nothing when no item has the name.
pub proof fn lemma_request_needs(text: Seq<char>, request: SliceRequest)
    ensures
        request.format == OutputFormat::Ast ==> request_printable(text, request),
        request.format == OutputFormat::Csv ==> (request_printable(text, request) <==> forall|i: int|
            0 <= i < item_count_of(text) && (item_kind_of(text, i) == ItemKind::Impl || item_kind_of(text, i)
                == ItemKind::Use) ==> #[trigger] item_printable(text, i)),
        request.format == OutputFormat::Code && request.item_name is None ==> (request_printable(
            text,
            request,
        ) <==> file_printable(text)),
        request.format == OutputFormat::Code && request.item_name is Some ==> match selected_item(
            text,
            request.item_name->0@,
        ) {
            Some(i) => request_printable(text, request) <==> item_printable(text, i),
            None => request_printable(text, request),
        },
{
    if request.format == OutputFormat::Csv {
        if request_printable(text, request) {
            assert forall|i: int|
                0 <= i < item_count_of(text) && (item_kind_of(text, i) == ItemKind::Impl || item_kind_of(
                    text,
                    i,
                ) == ItemKind::Use) implies #[trigger] item_printable(text, i) by {
                assert(printed_in_summary(item_kind_of(text, i)));
            }
        }
    }
}

fn check_request_printable(file: &SourceFile, request: &SliceRequest) -> (r: bool)
    ensures
        r == request_printable(file@, *request),
{
    match request.format {
        OutputFormat::Csv => check_summary_printable(file),
        OutputFormat::Ast => true,
        OutputFormat::Code => match &request.item_name {
            None => check_file_printable(file),
            Some(name) => {
                let found = find_item(file, name.as_str());
                proof {
                    lemma_selected_item_is_first(file@, name@);
                }
                match found {
                    Some(i) => check_item_printable(file, i),
                    None => true,
                }
            }
        },
    }
}

/// Runs the slicer on a parsed file. A CSV summary covers the whole file
/// whatever item is named; otherwise the named item (or, with no name, the
/// whole file) is printed as code or as its syntax tree. A notice is given
/// when an extracted item is written as code to an output file.
pub(crate) fn slice_file(file: &SourceFile, request: &SliceRequest) -> (r: Result<SliceReport, SliceError>)
    requires
        request_printable(file@, *request),
    ensures
        r is Err ==> r->Err_0 is ItemNotFound,
        request.format is Csv ==> r is Ok && r->Ok_0.text@ == csv_text(csv_summary(file@))
            && r->Ok_0.notice is None,
        !(request.format is Csv) && request.item_name is None ==> r is Ok && r->Ok_0.notice is None
            && (request.format is Code ==> r->Ok_0.text@ == rendered_file_of(file@))
            && (request.format is Ast ==> is_file_debug_text(file@, r->Ok_0.text@)),
        !(request.format is Csv) && request.item_name is Some ==> match selected_item(
            file@,
            request.item_name->0@,
        ) {
            None => r is Err && r->Err_0->ItemNotFound_0@ == not_found_message(
                request.item_name->0@,
                input_label(opt_text(request.input)),
            ),
            Some(i) => {
                &&& r is Ok
                &&& request.format is Code ==> r->Ok_0.text@ == rendered_item_of(file@, i)
                &&& request.format is Ast ==> is_item_debug_text(file@, i, r->Ok_0.text@)
                &&& r->Ok_0.notice is Some <==> (request.format is Code && request.output is Some)
                &&& r->Ok_0.notice is Some ==> r->Ok_0.notice->0@ == extracted_message(
                    request.item_name->0@,
                    request.output->0@,
                )
            },
        },
{
    match request.format {
        OutputFormat::Csv => {
            return Ok(SliceReport { text: generate_csv(file), notice: None });
        }
        _ => {}
    }
    match &request.item_name {
        Some(name) => {
            let found = find_item(file, name.as_str());
            proof {
                lemma_selected_item_is_first(file@, name@);
            }
            match found {
                Some(i) => {
                    match request.format {
                        OutputFormat::Code => {
                            let notice = match &request.output {
                                Some(path) => Some(extracted_text(name, path)),
                                None => None,
                            };
                            Ok(SliceReport { text: render_item(file, i), notice })
                        }
                        _ => Ok(SliceReport { text: item_debug_text(file, i), notice: None }),
                    }
                }
                None => Err(SliceError::ItemNotFound(not_found_text(name, &request.input))),
            }
        }
        None => {
            match request.format {
                OutputFormat::Code => Ok(SliceReport { text: render_file(file), notice: None }),
                _ => Ok(SliceReport { text: file_debug_text(file), notice: None }),
            }
        }
    }
}

/// Parses the source and runs the slicer on it. A source that is not a Rust
/// file is reported with the parser's message; a request whose printed part
/// `prettyplease` cannot print (raw syntax, or a `macro_rules!` body that is
/// not a run of rules) is refused. Otherwise the result is `slice_file`'s.
pub fn slice_source(source: &str, request: &SliceRequest) -> (r: Result<SliceReport, SliceError>)
    ensures
        !parses_as_rust_file(source@) <==> (r is Err && r->Err_0 is Parse),
        r is Err && r->Err_0 is Parse ==> r->Err_0->Parse_0@ == parse_failure_message(source@),
        (r is Err && r->Err_0 is Unprintable) <==> (parses_as_rust_file(source@) && !request_printable(
            source@,
            *request,
        )),
        r is Err && r->Err_0 is Unprintable ==> r->Err_0->Unprintable_0@ == unprintable_message(),
        !(r is Err && r->Err_0 is Unprintable) ==> {
            &&& request.format is Csv && parses_as_rust_file(source@) ==> r is Ok && r->Ok_0.text@
                == csv_text(csv_summary(source@)) && r->Ok_0.notice is None
            &&& !(request.format is Csv) && request.item_name is None && parses_as_rust_file(source@)
                ==> r is Ok && r->Ok_0.notice is None && (request.format is Code ==> r->Ok_0.text@
                == rendered_file_of(source@)) && (request.format is Ast ==> is_file_debug_text(
                source@,
                r->Ok_0.text@,
            ))
            &&& !(request.format is Csv) && request.item_name is Some && parses_as_rust_file(source@)
                ==> match selected_item(source@, request.item_name->0@) {
                None => r is Err && r->Err_0->ItemNotFound_0@ == not_found_message(
                    request.item_name->0@,
                    input_label(opt_text(request.input)),
                ),
                Some(i) => {
                    &&& r is Ok
                    &&& request.format is Code ==> r->Ok_0.text@ == rendered_item_of(source@, i)
                    &&& request.format is Ast ==> is_item_debug_text(source@, i, r->Ok_0.text@)
                    &&& r->Ok_0.notice is Some <==> (request.format is Code && request.output is Some)
                    &&& r->Ok_0.notice is Some ==> r->Ok_0.notice->0@ == extracted_message(
                        request.item_name->0@,
                        request.output->0@,
                    )
                },
            }
        },
{
    match parse_source(source) {
        Ok(file) => {
            if check_request_printable(&file, request) {
                slice_file(&file, request)
            } else {
                Err(SliceError::Unprintable(String::from_str(UNPRINTABLE_MESSAGE)))
            }
        }
        Err(e) => {
            let mut m = String::from_str("Error parsing source file: ");
            m.append(e.as_str());
            Err(SliceError::Parse(m))
        }
    }
}

pub const UNPRINTABLE_MESSAGE: &'static str = "Cannot print the requested code: it holds syntax that prettyplease does not print";

pub open spec fn unprintable_message() -> Seq<char> {
    UNPRINTABLE_MESSAGE@
}

} // verus!
