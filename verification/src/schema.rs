//! The columns of a sighting report: their names, in the order in which a
//! record holds them, which of them hold numbers, and which must be there.

use vstd::prelude::*;

verus! {

/// How many fields a sighting has.
pub const FIELD_COUNT: usize = 27;

pub const OBSERVED: usize = 0;

pub const LOCATION_DETAILS: usize = 1;

pub const COUNTY: usize = 2;

pub const STATE: usize = 3;

pub const TITLE: usize = 4;

pub const LATITUDE: usize = 5;

pub const LONGITUDE: usize = 6;

pub const DATE: usize = 7;

pub const NUMBER: usize = 8;

pub const CLASSIFICATION: usize = 9;

pub const GEOHASH: usize = 10;

pub const TEMPERATURE_HIGH: usize = 11;

pub const TEMPERATURE_MID: usize = 12;

pub const TEMPERATURE_LOW: usize = 13;

pub const DEW_POINT: usize = 14;

pub const HUMIDITY: usize = 15;

pub const CLOUD_COVER: usize = 16;

pub const MOON_PHASE: usize = 17;

pub const PRECIP_INTENSITY: usize = 18;

pub const PRECIP_PROBABILITY: usize = 19;

pub const PRECIP_TYPE: usize = 20;

pub const PRESSURE: usize = 21;

pub const SUMMARY: usize = 22;

pub const UV_INDEX: usize = 23;

pub const VISIBILITY: usize = 24;

pub const WIND_BEARING: usize = 25;

pub const WIND_SPEED: usize = 26;

/// The names of the fields, in the order of the record.
pub open spec fn field_names() -> Seq<Seq<char>> {
    seq![
        "observed"@,
        "location_details"@,
        "county"@,
        "state"@,
        "title"@,
        "latitude"@,
        "longitude"@,
        "date"@,
        "number"@,
        "classification"@,
        "geohash"@,
        "temperature_high"@,
        "temperature_mid"@,
        "temperature_low"@,
        "dew_point"@,
        "humidity"@,
        "cloud_cover"@,
        "moon_phase"@,
        "precip_intensity"@,
        "precip_probability"@,
        "precip_type"@,
        "pressure"@,
        "summary"@,
        "uv_index"@,
        "visibility"@,
        "wind_bearing"@,
        "wind_speed"@,
    ]
}

/// Whether the field holds a number.
pub open spec fn numeric_field(field: int) -> bool {
    field == LATITUDE
        || field == LONGITUDE
        || field == NUMBER
        || field == TEMPERATURE_HIGH
        || field == TEMPERATURE_MID
        || field == TEMPERATURE_LOW
        || field == DEW_POINT
        || field == HUMIDITY
        || field == CLOUD_COVER
        || field == MOON_PHASE
        || field == PRECIP_INTENSITY
        || field == PRECIP_PROBABILITY
        || field == PRESSURE
        || field == UV_INDEX
        || field == VISIBILITY
        || field == WIND_BEARING
        || field == WIND_SPEED
}

/// Whether a record cannot do without the field.
pub open spec fn required_field(field: int) -> bool {
    field == COUNTY || field == STATE || field == NUMBER || field == CLASSIFICATION
}

/// The field that a column of the given name fills, if there is one.
pub open spec fn column_field(name: Seq<char>) -> Option<int> {
    field_names().index_of_first(name)
}

/// The name of a field.
pub fn field_name(field: usize) -> (name: &'static str)
    requires
        field < FIELD_COUNT,
    ensures
        name@ == field_names()[field as int],
{
    if field == OBSERVED {
        "observed"
    } else if field == LOCATION_DETAILS {
        "location_details"
    } else if field == COUNTY {
        "county"
    } else if field == STATE {
        "state"
    } else if field == TITLE {
        "title"
    } else if field == LATITUDE {
        "latitude"
    } else if field == LONGITUDE {
        "longitude"
    } else if field == DATE {
        "date"
    } else if field == NUMBER {
        "number"
    } else if field == CLASSIFICATION {
        "classification"
    } else if field == GEOHASH {
        "geohash"
    } else if field == TEMPERATURE_HIGH {
        "temperature_high"
    } else if field == TEMPERATURE_MID {
        "temperature_mid"
    } else if field == TEMPERATURE_LOW {
        "temperature_low"
    } else if field == DEW_POINT {
        "dew_point"
    } else if field == HUMIDITY {
        "humidity"
    } else if field == CLOUD_COVER {
        "cloud_cover"
    } else if field == MOON_PHASE {
        "moon_phase"
    } else if field == PRECIP_INTENSITY {
        "precip_intensity"
    } else if field == PRECIP_PROBABILITY {
        "precip_probability"
    } else if field == PRECIP_TYPE {
        "precip_type"
    } else if field == PRESSURE {
        "pressure"
    } else if field == SUMMARY {
        "summary"
    } else if field == UV_INDEX {
        "uv_index"
    } else if field == VISIBILITY {
        "visibility"
    } else if field == WIND_BEARING {
        "wind_bearing"
    } else {
        "wind_speed"
    }
}

/// Whether the field holds a number.
pub fn is_numeric(field: usize) -> (yes: bool)
    ensures
        yes == numeric_field(field as int),
{
    field == LATITUDE
        || field == LONGITUDE
        || field == NUMBER
        || field == TEMPERATURE_HIGH
        || field == TEMPERATURE_MID
        || field == TEMPERATURE_LOW
        || field == DEW_POINT
        || field == HUMIDITY
        || field == CLOUD_COVER
        || field == MOON_PHASE
        || field == PRECIP_INTENSITY
        || field == PRECIP_PROBABILITY
        || field == PRESSURE
        || field == UV_INDEX
        || field == VISIBILITY
        || field == WIND_BEARING
        || field == WIND_SPEED
}

/// Whether a record cannot do without the field.
pub fn is_required(field: usize) -> (yes: bool)
    ensures
        yes == required_field(field as int),
{
    field == COUNTY || field == STATE || field == NUMBER || field == CLASSIFICATION
}

/// A sequence's first index of a value is the one index that holds the
/// value with no earlier index holding it.
pub proof fn lemma_first_index<A>(items: Seq<A>, needle: A, index: int)
    requires
        0 <= index < items.len(),
        items[index] == needle,
        forall|j: int| 0 <= j < index ==> items[j] != needle,
    ensures
        items.index_of_first(needle) == Some(index),
{
    items.index_of_first_ensures(needle);
    assert(items.contains(needle));
}

/// A value that a sequence does not hold has no first index in it.
pub proof fn lemma_no_index<A>(items: Seq<A>, needle: A)
    requires
        forall|j: int| 0 <= j < items.len() ==> items[j] != needle,
    ensures
        items.index_of_first(needle) is None,
{
    items.index_of_first_ensures(needle);
}

/// No two fields have the same name: any two names differ in their length,
/// in their first letter or in their thirteenth.
pub proof fn lemma_field_names_distinct()
    ensures
        field_names().len() == FIELD_COUNT,
        forall|f: int, g: int|
            0 <= f < g < FIELD_COUNT ==> #[trigger] field_names()[f] != #[trigger] field_names()[g],
{
    reveal_strlit("observed");
    reveal_strlit("location_details");
    reveal_strlit("county");
    reveal_strlit("state");
    reveal_strlit("title");
    reveal_strlit("latitude");
    reveal_strlit("longitude");
    reveal_strlit("date");
    reveal_strlit("number");
    reveal_strlit("classification");
    reveal_strlit("geohash");
    reveal_strlit("temperature_high");
    reveal_strlit("temperature_mid");
    reveal_strlit("temperature_low");
    reveal_strlit("dew_point");
    reveal_strlit("humidity");
    reveal_strlit("cloud_cover");
    reveal_strlit("moon_phase");
    reveal_strlit("precip_intensity");
    reveal_strlit("precip_probability");
    reveal_strlit("precip_type");
    reveal_strlit("pressure");
    reveal_strlit("summary");
    reveal_strlit("uv_index");
    reveal_strlit("visibility");
    reveal_strlit("wind_bearing");
    reveal_strlit("wind_speed");
    assert("observed"@.len() == 8 && "observed"@[0] == 'o');
    assert("location_details"@.len() == 16 && "location_details"@[0] == 'l');
    assert("county"@.len() == 6 && "county"@[0] == 'c');
    assert("state"@.len() == 5 && "state"@[0] == 's');
    assert("title"@.len() == 5 && "title"@[0] == 't');
    assert("latitude"@.len() == 8 && "latitude"@[0] == 'l');
    assert("longitude"@.len() == 9 && "longitude"@[0] == 'l');
    assert("date"@.len() == 4 && "date"@[0] == 'd');
    assert("number"@.len() == 6 && "number"@[0] == 'n');
    assert("classification"@.len() == 14 && "classification"@[0] == 'c');
    assert("geohash"@.len() == 7 && "geohash"@[0] == 'g');
    assert("temperature_high"@.len() == 16 && "temperature_high"@[0] == 't');
    assert("temperature_mid"@.len() == 15 && "temperature_mid"@[0] == 't' && "temperature_mid"@[12] == 'm');
    assert("temperature_low"@.len() == 15 && "temperature_low"@[0] == 't' && "temperature_low"@[12] == 'l');
    assert("dew_point"@.len() == 9 && "dew_point"@[0] == 'd');
    assert("humidity"@.len() == 8 && "humidity"@[0] == 'h');
    assert("cloud_cover"@.len() == 11 && "cloud_cover"@[0] == 'c');
    assert("moon_phase"@.len() == 10 && "moon_phase"@[0] == 'm');
    assert("precip_intensity"@.len() == 16 && "precip_intensity"@[0] == 'p');
    assert("precip_probability"@.len() == 18 && "precip_probability"@[0] == 'p');
    assert("precip_type"@.len() == 11 && "precip_type"@[0] == 'p');
    assert("pressure"@.len() == 8 && "pressure"@[0] == 'p');
    assert("summary"@.len() == 7 && "summary"@[0] == 's');
    assert("uv_index"@.len() == 8 && "uv_index"@[0] == 'u');
    assert("visibility"@.len() == 10 && "visibility"@[0] == 'v');
    assert("wind_bearing"@.len() == 12 && "wind_bearing"@[0] == 'w');
    assert("wind_speed"@.len() == 10 && "wind_speed"@[0] == 'w');
}

/// A column that bears the name of a field fills that field.
pub proof fn lemma_column_field_of_name(field: int)
    requires
        0 <= field < FIELD_COUNT,
    ensures
        column_field(field_names()[field]) == Some(field),
{
    lemma_field_names_distinct();
    lemma_first_index(field_names(), field_names()[field], field);
}

/// The field that a column of the given name fills, if there is one.
pub fn field_of_column(name: &String) -> (field: Option<usize>)
    ensures
        match field {
            Some(f) => f < FIELD_COUNT && column_field(name@) == Some(f as int),
            None => column_field(name@) is None,
        },
{
    let mut field: usize = 0;
    while field < FIELD_COUNT
        invariant
            field <= FIELD_COUNT,
            field_names().len() == FIELD_COUNT,
            forall|j: int| 0 <= j < field ==> field_names()[j] != name@,
        decreases FIELD_COUNT - field,
    {
        let candidate = String::from_str(field_name(field));
        if *name == candidate {
            proof {
                lemma_first_index(field_names(), name@, field as int);
            }
            return Some(field);
        }
        field = field + 1;
    }
    proof {
        lemma_no_index(field_names(), name@);
    }
    None
}

} // verus!
