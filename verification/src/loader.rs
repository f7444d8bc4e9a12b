//! Loading sighting reports from CSV text: the first row names the columns,
//! every other row is one report. Loading gives every report or none.

use vstd::prelude::*;
use crate::fault::{first_faulty_row, row_fault, LoadError, LoadFault};
use crate::layout::{table, texts, Layout};
use crate::record::{check_row, record_cells, sighting_of_row};
use crate::sighting::Sighting;

verus! {

#[verifier::external_type_specification]
#[verifier::external_body]
pub struct ExCsvError(csv::Error);

/// What the CSV reader makes of `data`: the rows that it reads, the header
/// row first, up to the end or to the first row that it rejects, each row
/// as the texts of its cells; and whether it rejected a row.
pub uninterp spec fn csv_scan(data: Seq<u8>) -> (Seq<Seq<Seq<char>>>, bool);

/// How many data rows a table has: every row but the header row.
pub open spec fn data_row_count(rows: Seq<Seq<Seq<char>>>) -> nat {
    if rows.len() == 0 {
        0
    } else {
        (rows.len() - 1) as nat
    }
}

/// The records of a table: for each row after the header row the cells
/// that the row gives, in the order of the rows.
pub open spec fn table_records(rows: Seq<Seq<Seq<char>>>) -> Seq<Seq<Option<Seq<char>>>> {
    Seq::new(data_row_count(rows), |i: int| record_cells(rows[0], rows[i + 1]))
}

/// What loading a table gives. `rows` are the rows that could be read and
/// `truncated` says whether reading stopped at a broken row. The fault of
/// the first faulty row is reported; a table without one is broken at the
/// row that could not be read, if there is such a row, and gives its
/// records otherwise.
pub open spec fn load_outcome(rows: Seq<Seq<Seq<char>>>, truncated: bool) -> Result<
    Seq<Seq<Option<Seq<char>>>>,
    LoadFault,
> {
    if exists|r: int| first_faulty_row(rows, r) {
        let r = choose|r: int| first_faulty_row(rows, r);
        Err(row_fault(rows[0], rows[r], r)->Some_0)
    } else if truncated {
        Err(LoadFault::Syntax { row: rows.len() as int })
    } else {
        Ok(table_records(rows))
    }
}

/// The cells of each of some sightings.
pub open spec fn sightings_view(sightings: Seq<Sighting>) -> Seq<Seq<Option<Seq<char>>>> {
    Seq::new(sightings.len(), |i: int| sightings[i]@)
}

/// The view of what loading returned.
pub open spec fn loaded_view(loaded: Result<Vec<Sighting>, LoadError>) -> Result<
    Seq<Seq<Option<Seq<char>>>>,
    LoadFault,
> {
    match loaded {
        Ok(sightings) => Ok(sightings_view(sightings@)),
        Err(error) => Err(error@),
    }
}

/// The outcome of a table whose first faulty row is `r`.
proof fn lemma_outcome_at_faulty_row(rows: Seq<Seq<Seq<char>>>, truncated: bool, r: int)
    requires
        first_faulty_row(rows, r),
    ensures
        load_outcome(rows, truncated) == Err::<Seq<Seq<Option<Seq<char>>>>, LoadFault>(
            row_fault(rows[0], rows[r], r)->Some_0,
        ),
{
    let chosen = choose|q: int| first_faulty_row(rows, q);
    if chosen < r {
        assert(row_fault(rows[0], rows[chosen], chosen) is None);
    } else if r < chosen {
        assert(row_fault(rows[0], rows[r], r) is None);
    }
}

/// A load that succeeds gives one record for each data row, in the order
/// of the rows, and it succeeds exactly when no row has a fault and no row
/// was left unread.
pub proof fn lemma_one_record_for_each_data_row(rows: Seq<Seq<Seq<char>>>, truncated: bool)
    ensures
        load_outcome(rows, truncated) is Ok <==> !truncated && forall|r: int|
            1 <= r < rows.len() ==> (#[trigger] row_fault(rows[0], rows[r], r)) is None,
        load_outcome(rows, truncated) matches Ok(records) ==> {
            &&& records.len() == data_row_count(rows)
            &&& forall|i: int|
                0 <= i < records.len() ==> #[trigger] records[i] == record_cells(
                    rows[0],
                    rows[i + 1],
                )
        },
{
    if exists|r: int| 1 <= r < rows.len() && (#[trigger] row_fault(rows[0], rows[r], r)) is Some {
        let r = choose|r: int|
            1 <= r < rows.len() && (#[trigger] row_fault(rows[0], rows[r], r)) is Some;
        lemma_some_row_faulty(rows, r);
    }
}

/// Where some data row is faulty, some data row is the first faulty one.
proof fn lemma_some_row_faulty(rows: Seq<Seq<Seq<char>>>, r: int)
    requires
        1 <= r < rows.len(),
        row_fault(rows[0], rows[r], r) is Some,
    ensures
        exists|first: int| first_faulty_row(rows, first),
    decreases r,
{
    if exists|earlier: int|
        1 <= earlier < r && (#[trigger] row_fault(rows[0], rows[earlier], earlier)) is Some {
        let earlier = choose|earlier: int|
            1 <= earlier < r && (#[trigger] row_fault(rows[0], rows[earlier], earlier)) is Some;
        lemma_some_row_faulty(rows, earlier);
    } else {
        assert(first_faulty_row(rows, r));
    }
}

/// Reads the rows of a table into sightings. `rows` holds the header row
/// and the rows that follow it; `failure`, where it is there, says that a
/// further row could not be read, and why.
pub fn read_rows(rows: &Vec<Vec<String>>, failure: Option<String>) -> (loaded: Result<
    Vec<Sighting>,
    LoadError,
>)
    ensures
        loaded_view(loaded) == load_outcome(table(rows@), failure is Some),
        loaded matches Ok(sightings) ==> sightings@.len() == data_row_count(table(rows@)),
        loaded matches Err(LoadError::Syntax { row, detail }) ==> detail@ == (if row
            == rows.len() {
            failure->Some_0@
        } else {
            Seq::<char>::empty()
        }),
{
    let ghost grid = table(rows@);
    let mut sightings: Vec<Sighting> = Vec::new();
    if rows.len() > 0 {
        let header = &rows[0];
        let layout = Layout::of_header(header);
        let mut r: usize = 1;
        while r < rows.len()
            invariant
                1 <= r <= rows.len(),
                grid == table(rows@),
                header == &rows@[0],
                layout.describes(texts(header@)),
                sightings@.len() == r - 1,
                forall|q: int| 1 <= q < r ==> (#[trigger] row_fault(grid[0], grid[q], q)) is None,
                forall|i: int|
                    0 <= i < r - 1 ==> (#[trigger] sightings@[i])@ == record_cells(
                        grid[0],
                        grid[i + 1],
                    ),
            decreases rows.len() - r,
        {
            let row = &rows[r];
            assert(grid[0] == texts(header@));
            assert(grid[r as int] == texts(row@));
            match check_row(header, &layout, row, r) {
                Some(error) => {
                    proof {
                        assert(first_faulty_row(grid, r as int));
                        lemma_outcome_at_faulty_row(grid, failure is Some, r as int);
                    }
                    return Err(error);
                },
                None => {},
            }
            let sighting = sighting_of_row(header, &layout, row);
            sightings.push(sighting);
            r = r + 1;
        }
    }
    assert(!exists|r: int| first_faulty_row(grid, r));
    match failure {
        Some(detail) => Err(LoadError::Syntax { row: rows.len(), detail }),
        None => {
            assert(sightings_view(sightings@) =~= table_records(grid));
            Ok(sightings)
        },
    }
}

/// The reader of the `csv` crate with its default settings, but for the
/// header row, which is handed out like every other row: its `records()`
/// are collected up to the first error. Trusted: the rows and the flag are
/// those that `csv_scan` names for these bytes, so they depend on
/// the bytes alone.
#[verifier::external_body]
fn scan_csv(data: &[u8]) -> (scan: (Vec<Vec<String>>, Option<csv::Error>))
    ensures
        table(scan.0@) == csv_scan(data@).0,
        (scan.1 is Some) == csv_scan(data@).1,
{
    let mut reader = csv::ReaderBuilder::new().has_headers(false).from_reader(data);
    let mut rows: Vec<Vec<String>> = Vec::new();
    for record in reader.records() {
        match record {
            Ok(cells) => rows.push(cells.iter().map(String::from).collect()),
            Err(error) => return (rows, Some(error)),
        }
    }
    (rows, None)
}

/// The `Display` text of a `csv::Error`. Nothing is claimed of the text.
#[verifier::external_body]
fn csv_error_text(error: &csv::Error) -> (text: String) {
    error.to_string()
}

/// Loads the sightings that a CSV text holds: one for each row after the
/// header row, in the order of the rows, or the first fault and no
/// sighting.
pub fn load_sightings(data: &[u8]) -> (loaded: Result<Vec<Sighting>, LoadError>)
    ensures
        loaded_view(loaded) == load_outcome(csv_scan(data@).0, csv_scan(data@).1),
        loaded matches Ok(sightings) ==> sightings@.len() == data_row_count(csv_scan(data@).0),
{
    let (rows, failure) = scan_csv(data);
    let detail = match failure {
        Some(error) => Some(csv_error_text(&error)),
        None => None,
    };
    read_rows(&rows, detail)
}

} // verus!
