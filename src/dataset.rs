//! The rate dataset: a comma-separated table whose first column is a ZIP
//! code and whose second column is the tax rate for it.

use vstd::prelude::*;

verus! {

#[verifier::external_type_specification]
#[verifier::external_body]
pub struct ExCsvError(csv::Error);

/// The data rows that the csv reader finds in `data` (its first line is the
/// header and is not among them), each row as its fields; `None` where the
/// reader reports an error.
pub uninterp spec fn csv_rows_of(data: Seq<u8>) -> Option<Seq<Seq<Seq<char>>>>;

/// Relies on csv::Reader::from_reader and Reader::records: the records after
/// the header line, each one the fields that StringRecord::iter yields, or the
/// first error the reader reports.
#[verifier::external_body]
fn read_csv_rows(data: &[u8]) -> (r: Result<Vec<Vec<String>>, csv::Error>)
    ensures
        match r {
            Ok(rows) => csv_rows_of(data@) == Some(rows.deep_view()),
            Err(_) => csv_rows_of(data@) is None,
        },
{
    csv::Reader::from_reader(data)
        .records()
        .map(|rec| rec.map(|fields| fields.iter().map(String::from).collect()))
        .collect()
}

/// One row of the dataset: a ZIP code and the rate that applies to it, both
/// kept verbatim as text.
pub struct RateRecord {
    pub zip: String,
    pub rate: String,
}

impl View for RateRecord {
    type V = (Seq<char>, Seq<char>);

    open spec fn view(&self) -> (Seq<char>, Seq<char>) {
        (self.zip@, self.rate@)
    }
}

/// The views of a sequence of records, in order.
pub open spec fn record_views(recs: Seq<RateRecord>) -> Seq<(Seq<char>, Seq<char>)> {
    recs.map_values(|r: RateRecord| r@)
}

/// Why a dataset could not be loaded.
#[derive(Debug, Clone, Copy, PartialEq, Eq, Structural)]
pub enum LoadError {
    /// The text is not well-formed delimited text.
    Malformed,
    /// The data row at this index (counting from zero, after the header) has
    /// fewer than two fields.
    ShortRow { row: usize },
}

/// Every row has at least the two fields a record needs.
pub open spec fn rows_complete(rows: Seq<Seq<Seq<char>>>) -> bool {
    forall|i: int| 0 <= i < rows.len() ==> #[trigger] rows[i].len() >= 2
}

/// The record that a complete row gives: its first two fields.
pub open spec fn row_record(row: Seq<Seq<char>>) -> (Seq<char>, Seq<char>) {
    (row[0], row[1])
}

/// `r` is the outcome that the rows owe: the record of every row, in order,
/// where all rows are complete; else the index of the first short row.
pub open spec fn rows_outcome(rows: Seq<Seq<Seq<char>>>, r: Result<Vec<RateRecord>, LoadError>) -> bool {
    match r {
        Ok(recs) => rows_complete(rows) && record_views(recs@) == rows.map_values(
            |row: Seq<Seq<char>>| row_record(row),
        ),
        Err(LoadError::ShortRow { row }) => row < rows.len() && rows[row as int].len() < 2
            && rows_complete(rows.take(row as int)),
        Err(LoadError::Malformed) => false,
    }
}

/// Turns the rows read from the dataset into records, failing on the first
/// row with fewer than two fields. Fields past the second are ignored.
pub fn records_from_rows(rows: &Vec<Vec<String>>) -> (r: Result<Vec<RateRecord>, LoadError>)
    ensures
        rows_outcome(rows.deep_view(), r),
{
    let ghost dv = rows.deep_view();
    let mut recs: Vec<RateRecord> = Vec::new();
    let mut i: usize = 0;
    while i < rows.len()
        invariant
            i <= rows.len(),
            dv == rows.deep_view(),
            rows_complete(dv.take(i as int)),
            record_views(recs@) == dv.take(i as int).map_values(
                |row: Seq<Seq<char>>| row_record(row),
            ),
        decreases rows.len() - i,
    {
        let row = &rows[i];
        assert(dv[i as int] == row.deep_view());
        if row.len() < 2 {
            return Err(LoadError::ShortRow { row: i });
        }
        let rec = RateRecord { zip: row[0].clone(), rate: row[1].clone() };
        assert(rec@ == row_record(dv[i as int]));
        let ghost before = recs@;
        recs.push(rec);
        proof {
            assert(recs@ =~= before.push(rec));
            assert(record_views(recs@) =~= record_views(before).push(rec@));
            assert(dv.take(i as int + 1) =~= dv.take(i as int).push(dv[i as int]));
            assert(record_views(recs@) =~= dv.take(i as int + 1).map_values(
                |row: Seq<Seq<char>>| row_record(row),
            ));
        }
        i = i + 1;
    }
    assert(dv.take(i as int) =~= dv);
    Ok(recs)
}

/// Parses the dataset: a header line, then one row per record with the ZIP
/// code in the first column and the rate in the second.
pub fn parse_dataset(data: &[u8]) -> (r: Result<Vec<RateRecord>, LoadError>)
    ensures
        match csv_rows_of(data@) {
            None => r == Err::<Vec<RateRecord>, LoadError>(LoadError::Malformed),
            Some(rows) => rows_outcome(rows, r),
        },
{
    match read_csv_rows(data) {
        Ok(rows) => records_from_rows(&rows),
        Err(_) => Err(LoadError::Malformed),
    }
}

} // verus!
