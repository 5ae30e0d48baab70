//! Encoding of rows as CSV and assembly of a dataset's table.
use vstd::prelude::*;
use vstd::utf8::encode_utf8;
use crate::dataset::Dataset;
use crate::error::JobError;
use crate::json::{Json, texts};
use crate::record::{column_views, header_of, map_rows, row_of, row_texts, rows_of};

verus! {

/// Whether a field must be quoted: it holds a delimiter, a quote or a line break.
pub open spec fn needs_quotes(field: Seq<char>) -> bool {
    exists|i: int|
        0 <= i < field.len() && (#[trigger] field[i] == ',' || field[i] == '"' || field[i] == '\r' || field[i] == '\n')
}

/// A field with each quote doubled.
pub open spec fn escape_quotes(field: Seq<char>) -> Seq<char>
    decreases field.len(),
{
    if field.len() == 0 {
        Seq::empty()
    } else {
        escape_quotes(field.drop_last()) + if field.last() == '"' {
            seq!['"', '"']
        } else {
            seq![field.last()]
        }
    }
}

/// One field as written: quoted, with quotes doubled, only where needed.
pub open spec fn encode_field(field: Seq<char>) -> Seq<char> {
    if needs_quotes(field) {
        seq!['"'] + escape_quotes(field) + seq!['"']
    } else {
        field
    }
}

/// The written fields, separated by commas.
pub open spec fn join_fields(fields: Seq<Seq<char>>) -> Seq<char>
    decreases fields.len(),
{
    if fields.len() == 0 {
        Seq::empty()
    } else if fields.len() == 1 {
        encode_field(fields[0])
    } else {
        join_fields(fields.drop_last()) + seq![','] + encode_field(fields.last())
    }
}

/// The bytes of one CSV record: the joined fields (or `""` for a record that
/// would otherwise be empty), ended by a newline, in UTF-8.
pub open spec fn csv_record(fields: Seq<Seq<char>>) -> Seq<u8> {
    let line = if join_fields(fields).len() == 0 {
        seq!['"', '"']
    } else {
        join_fields(fields)
    };
    encode_utf8(line + seq!['\n'])
}

/// Relies on csv::Writer with its default settings (write_record, then
/// into_inner, over an in-memory buffer): comma delimiter, `\n` terminator,
/// quotes only where needed with inner quotes doubled, and `""` for an empty
/// record; neither call fails on a fresh writer over a `Vec`.
#[verifier::external_body]
fn encode_record(fields: &Vec<String>) -> (r: Option<Vec<u8>>)
    ensures
        r is Some,
        r is Some ==> r->Some_0@ == csv_record(texts(fields@)),
{
    let mut writer = csv::Writer::from_writer(Vec::new());
    match writer.write_record(fields.iter()) {
        Ok(()) => writer.into_inner().ok(),
        Err(_) => None,
    }
}

/// The records encoded one after another.
pub open spec fn csv_records(records: Seq<Seq<Seq<char>>>) -> Seq<u8>
    decreases records.len(),
{
    if records.len() == 0 {
        Seq::empty()
    } else {
        csv_records(records.drop_last()) + csv_record(records.last())
    }
}

/// The table of a dataset over given elements: the header record, then one
/// record per element, in order.
pub open spec fn table_of(dataset: Dataset, elements: Seq<Json>) -> Seq<u8> {
    csv_records(
        seq![header_of(dataset.columns_spec())] + rows_of(dataset.columns_spec(), elements),
    )
}

/// What a dataset's table job yields for a parsed document.
pub open spec fn tabulate_spec(dataset: Dataset, document: Json) -> Result<Seq<u8>, JobError> {
    match document.get_spec(dataset.key_spec()) {
        Some(Json::Array(elements)) => Ok(table_of(dataset, elements@)),
        _ => Err(JobError::Schema),
    }
}

/// Encodes the records one after another.
pub fn encode_records(records: &Vec<Vec<String>>) -> (r: Vec<u8>)
    ensures
        r@ == csv_records(row_texts(records@)),
{
    let mut out: Vec<u8> = Vec::new();
    let mut i: usize = 0;
    while i < records.len()
        invariant
            i <= records@.len(),
            csv_records(row_texts(records@).subrange(0, i as int)) == out@,
        decreases records@.len() - i,
    {
        let ghost prefix = row_texts(records@).subrange(0, i + 1);
        assert(prefix.drop_last() =~= row_texts(records@).subrange(0, i as int));
        assert(prefix.last() == texts(records@[i as int]@));
        match encode_record(&records[i]) {
            Some(mut bytes) => {
                out.append(&mut bytes);
            },
            None => {},
        }
        i = i + 1;
    }
    assert(row_texts(records@).subrange(0, i as int) =~= row_texts(records@));
    out
}

/// Builds the table of `dataset` from a parsed response: the header, then one
/// row per element of the array under the dataset's key, in order. Fails with
/// `Schema` when that member is absent or not an array.
pub fn tabulate(dataset: Dataset, document: &Json) -> (r: Result<Vec<u8>, JobError>)
    ensures
        match tabulate_spec(dataset, *document) {
            Ok(bytes) => r is Ok && r->Ok_0@ == bytes,
            Err(e) => r == Err::<Vec<u8>, JobError>(e),
        },
{
    let key = dataset.array_key();
    match document.get(&key) {
        Some(Json::Array(elements)) => {
            let columns = dataset.columns();
            let mut records: Vec<Vec<String>> = vec![dataset.header()];
            let mut rows = map_rows(&columns, elements);
            records.append(&mut rows);
            assert(row_texts(records@) =~= seq![header_of(dataset.columns_spec())]
                + rows_of(dataset.columns_spec(), elements@));
            Ok(encode_records(&records))
        },
        _ => Err(JobError::Schema),
    }
}

} // verus!

verus! {

/// Encoding records one after another is the same as encoding two runs of
/// them and joining the bytes.
pub proof fn lemma_records_concat(front: Seq<Seq<Seq<char>>>, back: Seq<Seq<Seq<char>>>)
    ensures
        csv_records(front + back) == csv_records(front) + csv_records(back),
    decreases back.len(),
{
    if back.len() == 0 {
        assert(front + back =~= front);
        assert(csv_records(front) + Seq::<u8>::empty() =~= csv_records(front));
    } else {
        lemma_records_concat(front, back.drop_last());
        assert((front + back).drop_last() =~= front + back.drop_last());
        assert((front + back).last() == back.last());
        assert(csv_records(front) + csv_records(back.drop_last()) + csv_record(back.last())
            =~= csv_records(front) + (csv_records(back.drop_last()) + csv_record(back.last())));
    }
}

/// A dataset's table is the encoded header record followed by the encoded
/// rows, exactly one row per element and in the elements' order, each row
/// holding one field per column of the dataset's schema.
pub proof fn lemma_table_layout(dataset: Dataset, elements: Seq<Json>)
    ensures
        table_of(dataset, elements) == csv_record(header_of(dataset.columns_spec()))
            + csv_records(rows_of(dataset.columns_spec(), elements)),
        rows_of(dataset.columns_spec(), elements).len() == elements.len(),
        forall|i: int| 0 <= i < elements.len() ==> {
            &&& #[trigger] rows_of(dataset.columns_spec(), elements)[i] == row_of(dataset.columns_spec(), elements[i])
            &&& row_of(dataset.columns_spec(), elements[i]).len() == header_of(dataset.columns_spec()).len()
        },
{
    let header = header_of(dataset.columns_spec());
    lemma_records_concat(seq![header], rows_of(dataset.columns_spec(), elements));
    let single = seq![header];
    assert(single.drop_last() =~= Seq::<Seq<Seq<char>>>::empty());
    assert(single.last() == header);
    assert(csv_records(Seq::<Seq<Seq<char>>>::empty()) == Seq::<u8>::empty());
    assert(csv_records(single) == csv_records(single.drop_last()) + csv_record(single.last()));
    assert(Seq::<u8>::empty() + csv_record(header) =~= csv_record(header));
    assert(csv_records(single) == csv_record(header));
}

} // verus!
