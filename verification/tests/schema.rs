use bigfoot_sightings::layout::{column_of_field, Layout};
use bigfoot_sightings::schema::{
    field_name, field_of_column, is_numeric, is_required, CLASSIFICATION, COUNTY, FIELD_COUNT,
    LATITUDE, NUMBER, OBSERVED, STATE, WIND_SPEED,
};

#[test]
fn there_are_twenty_seven_fields() {
    assert_eq!(FIELD_COUNT, 27);
    assert_eq!(field_name(OBSERVED), "observed");
    assert_eq!(field_name(WIND_SPEED), "wind_speed");
    assert_eq!(WIND_SPEED, 26);
}

#[test]
fn every_name_leads_back_to_its_field() {
    for field in 0..FIELD_COUNT {
        let name = String::from(field_name(field));
        assert_eq!(field_of_column(&name), Some(field));
    }
}

#[test]
fn other_names_lead_to_no_field() {
    assert_eq!(field_of_column(&String::from("season")), None);
    assert_eq!(field_of_column(&String::from("")), None);
    assert_eq!(field_of_column(&String::from("County")), None);
    assert_eq!(field_of_column(&String::from(" county")), None);
}

#[test]
fn four_fields_are_required() {
    let required: Vec<usize> = (0..FIELD_COUNT).filter(|field| is_required(*field)).collect();
    assert_eq!(required, vec![COUNTY, STATE, NUMBER, CLASSIFICATION]);
}

#[test]
fn seventeen_fields_hold_numbers() {
    let numeric = (0..FIELD_COUNT).filter(|field| is_numeric(*field)).count();
    assert_eq!(numeric, 17);
    assert!(is_numeric(NUMBER));
    assert!(is_numeric(LATITUDE));
    assert!(!is_numeric(COUNTY));
    assert!(!is_numeric(OBSERVED));
}

#[test]
fn field_is_filled_by_the_first_column_of_its_name() {
    let header: Vec<String> =
        ["state", "county", "x", "county"].iter().map(|name| String::from(*name)).collect();
    assert_eq!(column_of_field(&header, COUNTY), Some(1));
    assert_eq!(column_of_field(&header, STATE), Some(0));
    assert_eq!(column_of_field(&header, NUMBER), None);
}

#[test]
fn layout_maps_columns_and_fields_both_ways() {
    let header: Vec<String> =
        ["state", "county", "x", "county"].iter().map(|name| String::from(*name)).collect();
    let layout = Layout::of_header(&header);
    assert_eq!(layout.columns, vec![Some(STATE), Some(COUNTY), None, Some(COUNTY)]);
    assert_eq!(layout.positions.len(), FIELD_COUNT);
    assert_eq!(layout.positions[COUNTY], Some(1));
    assert_eq!(layout.positions[STATE], Some(0));
    assert_eq!(layout.positions[NUMBER], None);
}
