//! Turning one row of a table into a sighting.

use vstd::prelude::*;
use crate::fault::{
    cell_allowed, column_fault, fault_view, field_missing, first_faulty_column,
    first_missing_field, lemma_row_fault_at_column, lemma_row_fault_at_field, lemma_row_sound,
    row_fault, LoadError,
};
use crate::layout::{field_column, texts, Layout};
use crate::numeral::{is_number, is_number_text, Numeral};
use crate::schema::{
    field_names, is_numeric, is_required, lemma_column_field_of_name, numeric_field,
    required_field, CLASSIFICATION, CLOUD_COVER, COUNTY, DATE, DEW_POINT, FIELD_COUNT, GEOHASH,
    HUMIDITY, LATITUDE, LOCATION_DETAILS, LONGITUDE, MOON_PHASE, NUMBER, OBSERVED,
    PRECIP_INTENSITY, PRECIP_PROBABILITY, PRECIP_TYPE, PRESSURE, STATE, SUMMARY,
    TEMPERATURE_HIGH, TEMPERATURE_LOW, TEMPERATURE_MID, TITLE, UV_INDEX, VISIBILITY,
    WIND_BEARING, WIND_SPEED,
};
use crate::sighting::{numeral_cell, text_cell, well_formed_cells, Sighting};

verus! {

/// The cell of a field in a row: the text of the column that fills the
/// field; nothing where no column does, or where the field may be missing
/// and the text is empty.
pub open spec fn field_cell(header: Seq<Seq<char>>, row: Seq<Seq<char>>, field: int) -> Option<
    Seq<char>,
> {
    match field_column(header, field) {
        None => None,
        Some(column) => if !required_field(field) && row[column].len() == 0 {
            None
        } else {
            Some(row[column])
        },
    }
}

/// The cells of the record that a row gives, one for each field.
pub open spec fn record_cells(header: Seq<Seq<char>>, row: Seq<Seq<char>>) -> Seq<
    Option<Seq<char>>,
> {
    Seq::new(FIELD_COUNT as nat, |field: int| field_cell(header, row, field))
}

/// The fault of a row, if it has one.
pub(crate) fn check_row(
    header: &Vec<String>,
    layout: &Layout,
    row: &Vec<String>,
    r: usize,
) -> (fault: Option<LoadError>)
    requires
        layout.describes(texts(header@)),
    ensures
        fault_view(fault) == row_fault(texts(header@), texts(row@), r as int),
        fault matches Some(LoadError::Syntax { detail, .. }) ==> detail@.len() == 0,
{
    let ghost names = texts(header@);
    let ghost cells = texts(row@);
    if row.len() != header.len() {
        return Some(LoadError::Syntax { row: r, detail: String::new() });
    }
    let mut column: usize = 0;
    while column < header.len()
        invariant
            column <= header.len(),
            row.len() == header.len(),
            names == texts(header@),
            cells == texts(row@),
            layout.describes(names),
            forall|c: int|
                0 <= c < column ==> (#[trigger] column_fault(names, cells, r as int, c)) is None,
        decreases header.len() - column,
    {
        match layout.columns[column] {
            None => {},
            Some(field) => {
                let mut found: Option<LoadError> = None;
                if layout.positions[field] != Some(column) {
                    found = Some(LoadError::DuplicateColumn { row: r, column });
                } else if is_numeric(field) {
                    let cell = row[column].as_str();
                    let empty_allowed = !is_required(field) && cell.is_empty();
                    if !empty_allowed && !is_number(cell) {
                        found = Some(LoadError::InvalidNumber { row: r, column });
                    }
                }
                assert(fault_view(found) == column_fault(
                    names,
                    cells,
                    r as int,
                    column as int,
                ));
                if found.is_some() {
                    proof {
                        lemma_row_fault_at_column(names, cells, r as int, column as int);
                    }
                    return found;
                }
            },
        }
        column = column + 1;
    }
    let mut field: usize = 0;
    while field < FIELD_COUNT
        invariant
            field <= FIELD_COUNT,
            row.len() == header.len(),
            names == texts(header@),
            cells == texts(row@),
            layout.describes(names),
            forall|c: int|
                0 <= c < header.len() ==> (#[trigger] column_fault(names, cells, r as int, c))
                    is None,
            forall|f: int| 0 <= f < field ==> !#[trigger] field_missing(names, f),
        decreases FIELD_COUNT - field,
    {
        if is_required(field) && layout.positions[field].is_none() {
            proof {
                lemma_row_fault_at_field(names, cells, r as int, field as int);
            }
            return Some(LoadError::MissingField { row: r, field });
        }
        field = field + 1;
    }
    proof {
        lemma_row_sound(names, cells, r as int);
    }
    None
}

/// What a row without a fault is known to hold.
proof fn lemma_sound_row(header: Seq<Seq<char>>, row: Seq<Seq<char>>, r: int)
    requires
        row_fault(header, row, r) is None,
    ensures
        row.len() == header.len(),
        forall|field: int|
            0 <= field < FIELD_COUNT && required_field(field) ==> (#[trigger] field_column(
                header,
                field,
            )) is Some,
        forall|field: int|
            0 <= field < FIELD_COUNT && (#[trigger] field_column(header, field)) is Some
                ==> cell_allowed(field, row[field_column(header, field)->Some_0]),
{
    assert forall|field: int|
        0 <= field < FIELD_COUNT && required_field(field) implies (#[trigger] field_column(
        header,
        field,
    )) is Some by {
        if field_column(header, field) is None {
            lemma_some_field_missing(header, field);
        }
    }
    assert forall|field: int|
        0 <= field < FIELD_COUNT && (#[trigger] field_column(header, field)) is Some
        implies cell_allowed(field, row[field_column(header, field)->Some_0]) by {
        let column = field_column(header, field)->Some_0;
        header.index_of_first_ensures(field_names()[field]);
        lemma_column_field_of_name(field);
        if column_fault(header, row, r, column) is Some {
            lemma_some_column_faulty(header, row, r, column);
        }
    }
}

/// The record of a row without a fault lacks no required field, and each
/// of its numeric cells writes a number.
pub proof fn lemma_sound_row_gives_well_formed_record(
    header: Seq<Seq<char>>,
    row: Seq<Seq<char>>,
    r: int,
)
    requires
        row_fault(header, row, r) is None,
    ensures
        well_formed_cells(record_cells(header, row)),
{
    lemma_sound_row(header, row, r);
    let cells = record_cells(header, row);
    assert forall|field: int|
        0 <= field < FIELD_COUNT && numeric_field(field) && (#[trigger] cells[field])
            is Some implies is_number_text(cells[field]->Some_0) by {
        assert(field_column(header, field) is Some);
    }
    assert forall|field: int| 0 <= field < FIELD_COUNT && required_field(field) implies (
    #[trigger] cells[field]) is Some by {
        assert(field_column(header, field) is Some);
    }
}

/// Where some column is faulty, some column is the first faulty one.
proof fn lemma_some_column_faulty(
    header: Seq<Seq<char>>,
    row: Seq<Seq<char>>,
    r: int,
    column: int,
)
    requires
        0 <= column < header.len(),
        column_fault(header, row, r, column) is Some,
    ensures
        exists|first: int| first_faulty_column(header, row, r, first),
    decreases column,
{
    if exists|earlier: int|
        0 <= earlier < column && (#[trigger] column_fault(header, row, r, earlier)) is Some {
        let earlier = choose|earlier: int|
            0 <= earlier < column && (#[trigger] column_fault(header, row, r, earlier)) is Some;
        lemma_some_column_faulty(header, row, r, earlier);
    } else {
        assert(first_faulty_column(header, row, r, column));
    }
}

/// Where some field is missing, some field is the first missing one.
proof fn lemma_some_field_missing(header: Seq<Seq<char>>, field: int)
    requires
        0 <= field < FIELD_COUNT,
        field_missing(header, field),
    ensures
        exists|first: int| first_missing_field(header, first),
    decreases field,
{
    if exists|earlier: int| 0 <= earlier < field && #[trigger] field_missing(header, earlier) {
        let earlier = choose|earlier: int|
            0 <= earlier < field && #[trigger] field_missing(header, earlier);
        lemma_some_field_missing(header, earlier);
    } else {
        assert(first_missing_field(header, field));
    }
}

fn cell_of<'a>(
    layout: &Layout,
    row: &'a Vec<String>,
    field: usize,
    Ghost(header): Ghost<Seq<Seq<char>>>,
) -> (cell: Option<&'a String>)
    requires
        layout.describes(header),
        row.len() == header.len(),
        field < FIELD_COUNT,
    ensures
        match field_column(header, field as int) {
            Some(column) => cell is Some && cell->Some_0@ == texts(row@)[column],
            None => cell is None,
        },
{
    match layout.positions[field] {
        Some(column) => Some(&row[column]),
        None => None,
    }
}

fn optional_text(
    layout: &Layout,
    row: &Vec<String>,
    field: usize,
    Ghost(header): Ghost<Seq<Seq<char>>>,
) -> (value: Option<String>)
    requires
        layout.describes(header),
        row.len() == header.len(),
        field < FIELD_COUNT,
        !required_field(field as int),
    ensures
        text_cell(value) == field_cell(header, texts(row@), field as int),
{
    match cell_of(layout, row, field, Ghost(header)) {
        Some(cell) => if cell.as_str().is_empty() {
            None
        } else {
            Some(cell.clone())
        },
        None => None,
    }
}

fn required_text(
    layout: &Layout,
    row: &Vec<String>,
    field: usize,
    Ghost(header): Ghost<Seq<Seq<char>>>,
) -> (value: String)
    requires
        layout.describes(header),
        row.len() == header.len(),
        field < FIELD_COUNT,
        required_field(field as int),
        field_column(header, field as int) is Some,
    ensures
        Some(value@) == field_cell(header, texts(row@), field as int),
{
    cell_of(layout, row, field, Ghost(header)).unwrap().clone()
}

fn optional_numeral(
    layout: &Layout,
    row: &Vec<String>,
    field: usize,
    Ghost(header): Ghost<Seq<Seq<char>>>,
) -> (value: Option<Numeral>)
    requires
        layout.describes(header),
        row.len() == header.len(),
        field < FIELD_COUNT,
        !required_field(field as int),
        numeric_field(field as int),
        field_column(header, field as int) is Some ==> cell_allowed(
            field as int,
            texts(row@)[field_column(header, field as int)->Some_0],
        ),
    ensures
        numeral_cell(value) == field_cell(header, texts(row@), field as int),
{
    match cell_of(layout, row, field, Ghost(header)) {
        Some(cell) => if cell.as_str().is_empty() {
            None
        } else {
            Numeral::parse(cell.as_str())
        },
        None => None,
    }
}

fn required_numeral(
    layout: &Layout,
    row: &Vec<String>,
    field: usize,
    Ghost(header): Ghost<Seq<Seq<char>>>,
) -> (value: Numeral)
    requires
        layout.describes(header),
        row.len() == header.len(),
        field < FIELD_COUNT,
        required_field(field as int),
        numeric_field(field as int),
        field_column(header, field as int) is Some,
        cell_allowed(field as int, texts(row@)[field_column(header, field as int)->Some_0]),
    ensures
        Some(value@) == field_cell(header, texts(row@), field as int),
{
    let cell = cell_of(layout, row, field, Ghost(header)).unwrap();
    Numeral::parse(cell.as_str()).unwrap()
}

/// The sighting that a row without a fault gives.
pub(crate) fn sighting_of_row(
    header: &Vec<String>,
    layout: &Layout,
    row: &Vec<String>,
) -> (sighting: Sighting)
    requires
        layout.describes(texts(header@)),
        exists|r: int| row_fault(texts(header@), texts(row@), r) is None,
    ensures
        sighting@ == record_cells(texts(header@), texts(row@)),
{
    let ghost names = texts(header@);
    proof {
        let r = choose|r: int| row_fault(texts(header@), texts(row@), r) is None;
        lemma_sound_row(names, texts(row@), r);
    }
    let sighting = Sighting {
        observed: optional_text(layout, row, OBSERVED, Ghost(names)),
        location_details: optional_text(layout, row, LOCATION_DETAILS, Ghost(names)),
        county: required_text(layout, row, COUNTY, Ghost(names)),
        state: required_text(layout, row, STATE, Ghost(names)),
        title: optional_text(layout, row, TITLE, Ghost(names)),
        latitude: optional_numeral(layout, row, LATITUDE, Ghost(names)),
        longitude: optional_numeral(layout, row, LONGITUDE, Ghost(names)),
        date: optional_text(layout, row, DATE, Ghost(names)),
        number: required_numeral(layout, row, NUMBER, Ghost(names)),
        classification: required_text(layout, row, CLASSIFICATION, Ghost(names)),
        geohash: optional_text(layout, row, GEOHASH, Ghost(names)),
        temperature_high: optional_numeral(layout, row, TEMPERATURE_HIGH, Ghost(names)),
        temperature_mid: optional_numeral(layout, row, TEMPERATURE_MID, Ghost(names)),
        temperature_low: optional_numeral(layout, row, TEMPERATURE_LOW, Ghost(names)),
        dew_point: optional_numeral(layout, row, DEW_POINT, Ghost(names)),
        humidity: optional_numeral(layout, row, HUMIDITY, Ghost(names)),
        cloud_cover: optional_numeral(layout, row, CLOUD_COVER, Ghost(names)),
        moon_phase: optional_numeral(layout, row, MOON_PHASE, Ghost(names)),
        precip_intensity: optional_numeral(layout, row, PRECIP_INTENSITY, Ghost(names)),
        precip_probability: optional_numeral(layout, row, PRECIP_PROBABILITY, Ghost(names)),
        precip_type: optional_text(layout, row, PRECIP_TYPE, Ghost(names)),
        pressure: optional_numeral(layout, row, PRESSURE, Ghost(names)),
        summary: optional_text(layout, row, SUMMARY, Ghost(names)),
        uv_index: optional_numeral(layout, row, UV_INDEX, Ghost(names)),
        visibility: optional_numeral(layout, row, VISIBILITY, Ghost(names)),
        wind_bearing: optional_numeral(layout, row, WIND_BEARING, Ghost(names)),
        wind_speed: optional_numeral(layout, row, WIND_SPEED, Ghost(names)),
    };
    assert(sighting@ =~= record_cells(names, texts(row@)));
    sighting
}

} // verus!
