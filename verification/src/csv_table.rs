//! CSV text as the `csv` crate writes it with its default settings, and the
//! writer calls that produce it.
use vstd::prelude::*;
use crate::text::join;

verus! {

/// A character that makes the default writer quote the field holding it:
/// the delimiter, the quote, and the two line-break characters.
pub open spec fn csv_special(c: char) -> bool {
    c == ',' || c == '"' || c == '\n' || c == '\r'
}

pub open spec fn csv_needs_quotes(f: Seq<char>) -> bool {
    exists|i: int| 0 <= i < f.len() && csv_special(#[trigger] f[i])
}

/// `f` with every `'"'` doubled.
pub open spec fn csv_double_quotes(f: Seq<char>) -> Seq<char>
    decreases f.len(),
{
    if f.len() == 0 {
        Seq::empty()
    } else {
        (if f[0] == '"' { seq!['"', '"'] } else { seq![f[0]] }) + csv_double_quotes(f.drop_first())
    }
}

/// A field as written: quoted, with inner quotes doubled, when necessary; as is otherwise.
pub open spec fn csv_field(f: Seq<char>) -> Seq<char> {
    if csv_needs_quotes(f) {
        seq!['"'] + csv_double_quotes(f) + seq!['"']
    } else {
        f
    }
}

/// A record as written: its fields separated by `','` and ended by `'\n'`;
/// a record that would write nothing before the terminator is written as `""`.
pub open spec fn csv_line(record: Seq<Seq<char>>) -> Seq<char> {
    let body = join(record.map_values(|f: Seq<char>| csv_field(f)), seq![',']);
    if body.len() == 0 {
        seq!['"', '"', '\n']
    } else {
        body.push('\n')
    }
}

/// The text of the records, one line after another.
pub open spec fn csv_text(records: Seq<Seq<Seq<char>>>) -> Seq<char>
    decreases records.len(),
{
    if records.len() == 0 {
        Seq::empty()
    } else {
        csv_text(records.drop_last()) + csv_line(records.last())
    }
}

/// The text of records written one after another is the concatenation of their texts.
pub proof fn lemma_csv_text_append(a: Seq<Seq<Seq<char>>>, b: Seq<Seq<Seq<char>>>)
    ensures
        csv_text(a + b) == csv_text(a) + csv_text(b),
    decreases b.len(),
{
    if b.len() == 0 {
        assert(a + b =~= a);
        assert(csv_text(b) =~= Seq::<char>::empty());
        assert(csv_text(a) + csv_text(b) =~= csv_text(a));
    } else {
        lemma_csv_text_append(a, b.drop_last());
        assert((a + b).drop_last() =~= a + b.drop_last());
        assert((a + b).last() == b.last());
    }
}

/// A field without special characters is written as it is.
pub proof fn lemma_plain_field(f: Seq<char>)
    requires
        forall|i: int| 0 <= i < f.len() ==> !csv_special(#[trigger] f[i]),
    ensures
        csv_field(f) == f,
{
}

/// A record given as strings, taken as character sequences.
pub open spec fn record_view(record: Seq<String>) -> Seq<Seq<char>> {
    record.map_values(|f: String| f@)
}

/// An in-memory CSV writer with the default settings. Its writer is held
/// privately: Verus does not take `csv::Writer<W>` as a declared type, because
/// of its `std::io::Write` bound.
#[verifier::external_body]
pub struct CsvWriter {
    inner: csv::Writer<Vec<u8>>,
}

/// The records written so far to an in-memory CSV writer.
pub uninterp spec fn csv_records(w: CsvWriter) -> Seq<Seq<Seq<char>>>;

/// Whether `record` may follow what `w` holds: a writer that is not flexible
/// (the default) accepts only records with as many fields as its first one.
pub open spec fn csv_accepts(w: CsvWriter, record: Seq<Seq<char>>) -> bool {
    csv_records(w).len() == 0 || csv_records(w)[0].len() == record.len()
}

/// Trusted: `csv::Writer::from_writer` on an empty `Vec<u8>`, claimed to hold no record.
#[verifier::external_body]
pub(crate) fn csv_writer() -> (w: CsvWriter)
    ensures
        csv_records(w) == Seq::<Seq<Seq<char>>>::empty(),
{
    CsvWriter { inner: csv::Writer::from_writer(Vec::new()) }
}

/// Trusted: `csv::Writer::write_record`. Claimed: on a record of the first
/// record's length it succeeds (an in-memory `Vec<u8>` never fails a write)
/// and the writer then holds one record more. A record of another length is
/// refused by the writer after its fields have been buffered; that input is
/// left out.
#[verifier::external_body]
pub(crate) fn csv_write_record(w: &mut CsvWriter, record: &Vec<String>) -> (r: Result<(), ()>)
    requires
        csv_accepts(*old(w), record_view(record@)),
    ensures
        r is Ok,
        csv_records(*final(w)) == csv_records(*old(w)).push(record_view(record@)),
{
    w.inner.write_record(record).map_err(|_| ())
}

/// Trusted: `csv::Writer::into_inner`, its bytes read as UTF-8 text. Claimed:
/// the text is that of the records written, laid out as `csv_text` states
/// (flushing into a `Vec<u8>` cannot fail, and the fields came from strings).
#[verifier::external_body]
pub(crate) fn csv_into_text(w: CsvWriter) -> (r: Option<String>)
    ensures
        r is Some,
        r is Some ==> r->0@ == csv_text(csv_records(w)),
{
    match w.inner.into_inner() {
        Ok(bytes) => String::from_utf8(bytes).ok(),
        Err(_) => None,
    }
}

} // verus!
