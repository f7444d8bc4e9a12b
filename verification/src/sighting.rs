//! One sighting report.

use vstd::prelude::*;
use crate::numeral::{is_number_text, Numeral};
use crate::schema::{numeric_field, required_field, FIELD_COUNT};

verus! {

/// One reported sighting. A numeric field holds the number as it was
/// written; a field that may be missing holds `None` when it is.
#[derive(Clone, Debug, PartialEq, Eq)]
pub struct Sighting {
    pub observed: Option<String>,
    pub location_details: Option<String>,
    pub county: String,
    pub state: String,
    pub title: Option<String>,
    pub latitude: Option<Numeral>,
    pub longitude: Option<Numeral>,
    pub date: Option<String>,
    pub number: Numeral,
    pub classification: String,
    pub geohash: Option<String>,
    pub temperature_high: Option<Numeral>,
    pub temperature_mid: Option<Numeral>,
    pub temperature_low: Option<Numeral>,
    pub dew_point: Option<Numeral>,
    pub humidity: Option<Numeral>,
    pub cloud_cover: Option<Numeral>,
    pub moon_phase: Option<Numeral>,
    pub precip_intensity: Option<Numeral>,
    pub precip_probability: Option<Numeral>,
    pub precip_type: Option<String>,
    pub pressure: Option<Numeral>,
    pub summary: Option<String>,
    pub uv_index: Option<Numeral>,
    pub visibility: Option<Numeral>,
    pub wind_bearing: Option<Numeral>,
    pub wind_speed: Option<Numeral>,
}

/// The cell of a text field that may be missing.
pub open spec fn text_cell(value: Option<String>) -> Option<Seq<char>> {
    match value {
        Some(text) => Some(text@),
        None => None,
    }
}

/// The cell of a numeric field that may be missing.
pub open spec fn numeral_cell(value: Option<Numeral>) -> Option<Seq<char>> {
    match value {
        Some(numeral) => Some(numeral@),
        None => None,
    }
}

/// Whether `cells` can be the cells of a sighting: one cell for each field,
/// none of the required ones missing, and every numeric one a number.
pub open spec fn well_formed_cells(cells: Seq<Option<Seq<char>>>) -> bool {
    &&& cells.len() == FIELD_COUNT
    &&& forall|field: int|
        0 <= field < FIELD_COUNT && required_field(field) ==> (#[trigger] cells[field]) is Some
    &&& forall|field: int|
        0 <= field < FIELD_COUNT && numeric_field(field) && (#[trigger] cells[field]) is Some
            ==> is_number_text(cells[field]->Some_0)
}

impl View for Sighting {
    type V = Seq<Option<Seq<char>>>;

    /// The cells of the sighting, one for each field in the order of the
    /// record: the field's text, or `None` where it is missing.
    open spec fn view(&self) -> Seq<Option<Seq<char>>> {
        seq![
            text_cell(self.observed),
            text_cell(self.location_details),
            Some(self.county@),
            Some(self.state@),
            text_cell(self.title),
            numeral_cell(self.latitude),
            numeral_cell(self.longitude),
            text_cell(self.date),
            Some(self.number@),
            Some(self.classification@),
            text_cell(self.geohash),
            numeral_cell(self.temperature_high),
            numeral_cell(self.temperature_mid),
            numeral_cell(self.temperature_low),
            numeral_cell(self.dew_point),
            numeral_cell(self.humidity),
            numeral_cell(self.cloud_cover),
            numeral_cell(self.moon_phase),
            numeral_cell(self.precip_intensity),
            numeral_cell(self.precip_probability),
            text_cell(self.precip_type),
            numeral_cell(self.pressure),
            text_cell(self.summary),
            numeral_cell(self.uv_index),
            numeral_cell(self.visibility),
            numeral_cell(self.wind_bearing),
            numeral_cell(self.wind_speed),
        ]
    }
}

} // verus!
