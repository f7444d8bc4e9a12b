//! What can be wrong with a table of sighting reports, and which fault is
//! reported when several are there.

use vstd::prelude::*;
use crate::key::{decimal_of_natural, decimal_text};
use crate::layout::field_column;
use crate::numeral::is_number_text;
use crate::schema::{
    column_field, field_name, field_names, numeric_field, required_field, FIELD_COUNT,
};

verus! {

/// A fault in a table, with the row that shows it. Rows count from the
/// header row, which is row 0; columns and fields count from 0.
pub enum LoadFault {
    /// The row is not a well-formed row of the table: its width differs
    /// from the header's, or the text of the table is broken there.
    Syntax { row: int },
    /// The column names a field that an earlier column has named.
    DuplicateColumn { row: int, column: int },
    /// The cell of a numeric column does not write a number.
    InvalidNumber { row: int, column: int },
    /// No column names the required field.
    MissingField { row: int, field: int },
}

/// Why a table could not be loaded.
#[derive(Debug, PartialEq, Eq)]
pub enum LoadError {
    /// The row is not a well-formed row of the table. `detail` says more
    /// where more is known.
    Syntax { row: usize, detail: String },
    /// The column names a field that an earlier column has named.
    DuplicateColumn { row: usize, column: usize },
    /// The cell of a numeric column does not write a number.
    InvalidNumber { row: usize, column: usize },
    /// No column names the required field.
    MissingField { row: usize, field: usize },
}

impl View for LoadError {
    type V = LoadFault;

    open spec fn view(&self) -> LoadFault {
        match *self {
            LoadError::Syntax { row, detail } => LoadFault::Syntax { row: row as int },
            LoadError::DuplicateColumn { row, column } => LoadFault::DuplicateColumn {
                row: row as int,
                column: column as int,
            },
            LoadError::InvalidNumber { row, column } => LoadFault::InvalidNumber {
                row: row as int,
                column: column as int,
            },
            LoadError::MissingField { row, field } => LoadFault::MissingField {
                row: row as int,
                field: field as int,
            },
        }
    }
}

/// What is said of a fault: the row, the column where there is one, and
/// what is wrong there. `detail` ends the message of a syntax fault.
pub open spec fn message_text(fault: LoadFault, detail: Seq<char>) -> Seq<char> {
    match fault {
        LoadFault::Syntax { row } => "row "@ + decimal_text(row) + ": "@ + detail,
        LoadFault::DuplicateColumn { row, column } => "row "@ + decimal_text(row) + ", column "@
            + decimal_text(column) + ": a field is named twice"@,
        LoadFault::InvalidNumber { row, column } => "row "@ + decimal_text(row) + ", column "@
            + decimal_text(column) + ": not a number"@,
        LoadFault::MissingField { row, field } => "row "@ + decimal_text(row) + ": no column named "@
            + (if 0 <= field < FIELD_COUNT {
            field_names()[field]
        } else {
            decimal_text(field)
        }),
    }
}

fn place(row: usize, column: usize) -> (text: String)
    ensures
        text@ == "row "@ + decimal_text(row as int) + ", column "@ + decimal_text(column as int),
{
    let mut text = String::from_str("row ");
    text.append(decimal_of_natural(row as u64).as_str());
    text.append(", column ");
    text.append(decimal_of_natural(column as u64).as_str());
    text
}

impl LoadError {
    /// The message that reports this error.
    pub fn message(&self) -> (text: String)
        ensures
            text@ == message_text(
                self@,
                match *self {
                    LoadError::Syntax { row, detail } => detail@,
                    _ => Seq::<char>::empty(),
                },
            ),
    {
        match self {
            LoadError::Syntax { row, detail } => {
                let mut text = String::from_str("row ");
                text.append(decimal_of_natural(*row as u64).as_str());
                text.append(": ");
                text.append(detail.as_str());
                text
            },
            LoadError::DuplicateColumn { row, column } => {
                let mut text = place(*row, *column);
                text.append(": a field is named twice");
                text
            },
            LoadError::InvalidNumber { row, column } => {
                let mut text = place(*row, *column);
                text.append(": not a number");
                text
            },
            LoadError::MissingField { row, field } => {
                let mut text = String::from_str("row ");
                text.append(decimal_of_natural(*row as u64).as_str());
                text.append(": no column named ");
                if *field < FIELD_COUNT {
                    text.append(field_name(*field));
                } else {
                    text.append(decimal_of_natural(*field as u64).as_str());
                }
                text
            },
        }
    }
}

/// The fault that an optional error stands for.
pub open spec fn fault_view(error: Option<LoadError>) -> Option<LoadFault> {
    match error {
        Some(e) => Some(e@),
        None => None,
    }
}

/// Whether a field accepts a cell: a text field accepts every cell, a
/// numeric field a number, and one that may be missing an empty cell too.
pub open spec fn cell_allowed(field: int, cell: Seq<char>) -> bool {
    !numeric_field(field) || (!required_field(field) && cell.len() == 0) || is_number_text(cell)
}

/// The fault of one column of a row, if it has one. A column whose name is
/// no field's has none.
pub open spec fn column_fault(
    header: Seq<Seq<char>>,
    row: Seq<Seq<char>>,
    r: int,
    column: int,
) -> Option<LoadFault> {
    match column_field(header[column]) {
        None => None,
        Some(field) => if field_column(header, field) != Some(column) {
            Some(LoadFault::DuplicateColumn { row: r, column })
        } else if !cell_allowed(field, row[column]) {
            Some(LoadFault::InvalidNumber { row: r, column })
        } else {
            None
        },
    }
}

/// Whether `column` is the first column of the row that has a fault.
pub open spec fn first_faulty_column(
    header: Seq<Seq<char>>,
    row: Seq<Seq<char>>,
    r: int,
    column: int,
) -> bool {
    &&& 0 <= column < header.len()
    &&& column_fault(header, row, r, column) is Some
    &&& forall|earlier: int|
        0 <= earlier < column ==> (#[trigger] column_fault(header, row, r, earlier)) is None
}

/// Whether the header lacks a field that a record cannot do without.
pub open spec fn field_missing(header: Seq<Seq<char>>, field: int) -> bool {
    required_field(field) && field_column(header, field) is None
}

/// Whether `field` is the first field that the header lacks.
pub open spec fn first_missing_field(header: Seq<Seq<char>>, field: int) -> bool {
    &&& 0 <= field < FIELD_COUNT
    &&& field_missing(header, field)
    &&& forall|earlier: int| 0 <= earlier < field ==> !#[trigger] field_missing(header, earlier)
}

/// The fault of row `r`, if it has one: a wrong width before anything else,
/// then the fault of its first faulty column, then the first missing field.
pub open spec fn row_fault(header: Seq<Seq<char>>, row: Seq<Seq<char>>, r: int) -> Option<
    LoadFault,
> {
    if row.len() != header.len() {
        Some(LoadFault::Syntax { row: r })
    } else if exists|column: int| first_faulty_column(header, row, r, column) {
        column_fault(header, row, r, choose|column: int| first_faulty_column(header, row, r, column))
    } else if exists|field: int| first_missing_field(header, field) {
        Some(
            LoadFault::MissingField {
                row: r,
                field: choose|field: int| first_missing_field(header, field),
            },
        )
    } else {
        None
    }
}

/// Whether `r` is the first data row of the table that has a fault.
pub open spec fn first_faulty_row(rows: Seq<Seq<Seq<char>>>, r: int) -> bool {
    &&& 1 <= r < rows.len()
    &&& row_fault(rows[0], rows[r], r) is Some
    &&& forall|earlier: int|
        1 <= earlier < r ==> (#[trigger] row_fault(rows[0], rows[earlier], earlier)) is None
}

/// A row has the fault of its first faulty column.
pub(crate) proof fn lemma_row_fault_at_column(
    header: Seq<Seq<char>>,
    row: Seq<Seq<char>>,
    r: int,
    column: int,
)
    requires
        row.len() == header.len(),
        first_faulty_column(header, row, r, column),
    ensures
        row_fault(header, row, r) == column_fault(header, row, r, column),
{
    let chosen = choose|c: int| first_faulty_column(header, row, r, c);
    if chosen < column {
        assert(column_fault(header, row, r, chosen) is None);
    } else if column < chosen {
        assert(column_fault(header, row, r, column) is None);
    }
}

/// A row without a faulty column has the fault of the first missing field.
pub(crate) proof fn lemma_row_fault_at_field(
    header: Seq<Seq<char>>,
    row: Seq<Seq<char>>,
    r: int,
    field: int,
)
    requires
        row.len() == header.len(),
        forall|column: int|
            0 <= column < header.len() ==> (#[trigger] column_fault(header, row, r, column))
                is None,
        first_missing_field(header, field),
    ensures
        row_fault(header, row, r) == Some(LoadFault::MissingField { row: r, field }),
{
    let chosen = choose|f: int| first_missing_field(header, f);
    if chosen < field {
        assert(!field_missing(header, chosen));
    } else if field < chosen {
        assert(!field_missing(header, field));
    }
}

/// A row of the header's width with no faulty column and no missing field
/// has no fault.
pub(crate) proof fn lemma_row_sound(header: Seq<Seq<char>>, row: Seq<Seq<char>>, r: int)
    requires
        row.len() == header.len(),
        forall|column: int|
            0 <= column < header.len() ==> (#[trigger] column_fault(header, row, r, column))
                is None,
        forall|field: int| 0 <= field < FIELD_COUNT ==> !#[trigger] field_missing(header, field),
    ensures
        row_fault(header, row, r) is None,
{
}

} // verus!
