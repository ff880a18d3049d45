//! Tab-separated tables, read record by record with the `csv` crate.

use crate::schema::{Row, SchemaError};
use vstd::prelude::*;

verus! {

/// The reader of the `csv` crate.
#[verifier::external_type_specification]
#[verifier::external_body]
#[verifier::reject_recursive_types(R)]
pub struct ExCsvReader<R>(csv::Reader<R>);

/// The error type of the `csv` crate.
#[verifier::external_type_specification]
#[verifier::external_body]
pub struct ExCsvError(csv::Error);

/// What reading one record gave: its cells, or `None` where the reader
/// reported an error in place of the record.
pub type Record = Option<Row>;

/// The records that `csv` finds in `data`, in their order, when it reads the
/// bytes as a tab-separated table without a header row.
pub uninterp spec fn tsv_records(data: Seq<u8>) -> Seq<Record>;

/// The records that a reader has yet to give.
pub uninterp spec fn records_ahead(reader: csv::Reader<&[u8]>) -> Seq<Record>;

/// Makes a `csv::Reader` on `data` with `ReaderBuilder`: the delimiter is a
/// tab, there is no header row, and the rest is as `csv` sets it up by
/// default. What `csv` makes of given bytes (quoting, line ends, records of
/// unequal length, bytes that are no text) depends on the bytes alone and is
/// not restated: the records that the reader will give have the name
/// [`tsv_records`].
#[verifier::external_body]
fn tsv_reader<'a>(data: &'a [u8]) -> (reader: csv::Reader<&'a [u8]>)
    ensures
        records_ahead(reader) == tsv_records(data@),
{
    csv::ReaderBuilder::new().delimiter(b'\t').has_headers(false).from_reader(data)
}

/// Asks the iterator of `Reader::records` for its next item: `None` at the
/// end of the input, and from then on; else the next record, as the text of
/// its fields, or the error that the reader reports in its place. Either way
/// the reader has moved past the record.
#[verifier::external_body]
fn next_record(reader: &mut csv::Reader<&[u8]>) -> (r: Option<Result<Vec<String>, csv::Error>>)
    ensures
        r is None ==> records_ahead(*old(reader)).len() == 0 && records_ahead(*final(reader))
            == records_ahead(*old(reader)),
        r is Some ==> records_ahead(*old(reader)).len() > 0 && records_ahead(*final(reader))
            == records_ahead(*old(reader)).skip(1),
        r matches Some(Ok(row)) ==> records_ahead(*old(reader))[0] == Some(row.deep_view()),
        r matches Some(Err(_)) ==> records_ahead(*old(reader))[0] is None,
{
    reader.records().next().map(|r| r.map(|record| record.iter().map(String::from).collect()))
}

/// A table that is being read, from its first record to its last. A table
/// cannot be rewound: to read it again, open it again.
pub struct Table<'a> {
    reader: csv::Reader<&'a [u8]>,
}

impl<'a> Table<'a> {
    /// The records that are yet to be read.
    pub closed spec fn ahead(&self) -> Seq<Record> {
        records_ahead(self.reader)
    }

    /// Opens the table that `data` holds.
    pub fn open(data: &'a [u8]) -> (table: Table<'a>)
        ensures
            table.ahead() == tsv_records(data@),
    {
        Table { reader: tsv_reader(data) }
    }

    /// Reads the next record: its cells, or the error reported in its place;
    /// `None` when the table is at its end.
    pub fn next_row(&mut self) -> (r: Option<Result<Vec<String>, csv::Error>>)
        ensures
            r is None ==> old(self).ahead().len() == 0 && final(self).ahead() == old(self).ahead(),
            r is Some ==> old(self).ahead().len() > 0 && final(self).ahead() == old(
                self,
            ).ahead().skip(1),
            r matches Some(Ok(row)) ==> old(self).ahead()[0] == Some(row.deep_view()),
            r matches Some(Err(_)) ==> old(self).ahead()[0] is None,
    {
        next_record(&mut self.reader)
    }
}

/// Why a table could not be loaded. Records count from 0.
#[derive(Debug)]
pub enum TableError {
    /// The reader reported an error in place of a record.
    Unreadable { record: usize, report: csv::Error },
    /// A row does not follow the schema.
    Row { row: usize, error: SchemaError },
}

} // verus!
