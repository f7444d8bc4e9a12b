//! How the columns of a header row map to the fields of a sighting.

use vstd::prelude::*;
use crate::schema::{
    column_field, field_name, field_names, field_of_column, lemma_first_index, lemma_no_index,
    FIELD_COUNT,
};

verus! {

/// The texts of a row of cells.
pub open spec fn texts(cells: Seq<String>) -> Seq<Seq<char>> {
    Seq::new(cells.len(), |i: int| cells[i]@)
}

/// The texts of a table, row by row.
pub open spec fn table(rows: Seq<Vec<String>>) -> Seq<Seq<Seq<char>>> {
    Seq::new(rows.len(), |r: int| texts(rows[r]@))
}

/// An index as a mathematical integer.
pub open spec fn index_view(index: Option<usize>) -> Option<int> {
    match index {
        Some(i) => Some(i as int),
        None => None,
    }
}

/// The column that fills a field: the first one that bears the field's
/// name.
pub open spec fn field_column(header: Seq<Seq<char>>, field: int) -> Option<int> {
    header.index_of_first(field_names()[field])
}

/// For each column of a header the field that it names, and for each field
/// the column that fills it.
pub struct Layout {
    pub columns: Vec<Option<usize>>,
    pub positions: Vec<Option<usize>>,
}

impl Layout {
    /// Whether this is the layout of `header`.
    pub open spec fn describes(&self, header: Seq<Seq<char>>) -> bool {
        &&& self.columns@.len() == header.len()
        &&& self.positions@.len() == FIELD_COUNT
        &&& forall|column: int|
            0 <= column < header.len() ==> index_view(#[trigger] self.columns@[column])
                == column_field(header[column])
        &&& forall|column: int|
            0 <= column < header.len() && (#[trigger] self.columns@[column]) is Some
                ==> self.columns@[column]->Some_0 < FIELD_COUNT
        &&& forall|field: int|
            0 <= field < FIELD_COUNT ==> index_view(#[trigger] self.positions@[field])
                == field_column(header, field)
        &&& forall|field: int|
            0 <= field < FIELD_COUNT && (#[trigger] self.positions@[field]) is Some
                ==> self.positions@[field]->Some_0 < header.len()
    }

    /// The layout of a header row.
    pub fn of_header(header: &Vec<String>) -> (layout: Layout)
        ensures
            layout.describes(texts(header@)),
    {
        let ghost names = texts(header@);
        let mut columns: Vec<Option<usize>> = Vec::new();
        let mut column: usize = 0;
        while column < header.len()
            invariant
                column <= header.len(),
                names == texts(header@),
                columns@.len() == column,
                forall|c: int|
                    0 <= c < column ==> index_view(#[trigger] columns@[c]) == column_field(
                        names[c],
                    ),
                forall|c: int|
                    0 <= c < column && (#[trigger] columns@[c]) is Some ==> columns@[c]->Some_0
                        < FIELD_COUNT,
            decreases header.len() - column,
        {
            let field = field_of_column(&header[column]);
            columns.push(field);
            column = column + 1;
        }
        let mut positions: Vec<Option<usize>> = Vec::new();
        let mut field: usize = 0;
        while field < FIELD_COUNT
            invariant
                field <= FIELD_COUNT,
                names == texts(header@),
                positions@.len() == field,
                forall|f: int|
                    0 <= f < field ==> index_view(#[trigger] positions@[f]) == field_column(
                        names,
                        f,
                    ),
                forall|f: int|
                    0 <= f < field && (#[trigger] positions@[f]) is Some ==> positions@[f]->Some_0
                        < header.len(),
            decreases FIELD_COUNT - field,
        {
            let position = column_of_field(header, field);
            positions.push(position);
            field = field + 1;
        }
        Layout { columns, positions }
    }
}

/// The first column of `header` that bears the name of `field`.
pub fn column_of_field(header: &Vec<String>, field: usize) -> (column: Option<usize>)
    requires
        field < FIELD_COUNT,
    ensures
        index_view(column) == field_column(texts(header@), field as int),
        column is Some ==> column->Some_0 < header.len(),
{
    let ghost names = texts(header@);
    let name = String::from_str(field_name(field));
    let mut column: usize = 0;
    while column < header.len()
        invariant
            column <= header.len(),
            names == texts(header@),
            name@ == field_names()[field as int],
            forall|j: int| 0 <= j < column ==> names[j] != name@,
        decreases header.len() - column,
    {
        if header[column] == name {
            proof {
                lemma_first_index(names, name@, column as int);
            }
            return Some(column);
        }
        column = column + 1;
    }
    proof {
        lemma_no_index(names, name@);
    }
    None
}

} // verus!
