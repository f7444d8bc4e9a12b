use bigfoot_sightings::fault::LoadError;
use bigfoot_sightings::loader::{load_sightings, read_rows};
use bigfoot_sightings::numeral::Numeral;
use bigfoot_sightings::schema::{CLASSIFICATION, COUNTY, NUMBER, STATE};
use bigfoot_sightings::sighting::Sighting;

const HEADER: &str = "observed,location_details,county,state,title,latitude,longitude,date,number,classification,geohash,temperature_high,temperature_mid,temperature_low,dew_point,humidity,cloud_cover,moon_phase,precip_intensity,precip_probability,precip_type,pressure,summary,uv_index,visibility,wind_bearing,wind_speed";

fn with_header(rows: &[&str]) -> Vec<u8> {
    let mut text = String::from(HEADER);
    text.push('\n');
    for row in rows {
        text.push_str(row);
        text.push('\n');
    }
    text.into_bytes()
}

fn numeral(text: &str) -> Numeral {
    Numeral::parse(text).unwrap()
}

fn bare(county: &str, state: &str, number: &str, classification: &str) -> Sighting {
    Sighting {
        observed: None,
        location_details: None,
        county: String::from(county),
        state: String::from(state),
        title: None,
        latitude: None,
        longitude: None,
        date: None,
        number: numeral(number),
        classification: String::from(classification),
        geohash: None,
        temperature_high: None,
        temperature_mid: None,
        temperature_low: None,
        dew_point: None,
        humidity: None,
        cloud_cover: None,
        moon_phase: None,
        precip_intensity: None,
        precip_probability: None,
        precip_type: None,
        pressure: None,
        summary: None,
        uv_index: None,
        visibility: None,
        wind_bearing: None,
        wind_speed: None,
    }
}

fn cells(texts: &[&str]) -> Vec<String> {
    texts.iter().map(|text| String::from(*text)).collect()
}

#[test]
fn row_with_only_the_required_fields() {
    let data = with_header(&[",,Klamath,OR,,,,,1,Class A,,,,,,,,,,,,,,,,,"]);
    let loaded = load_sightings(&data).unwrap();
    assert_eq!(loaded, vec![bare("Klamath", "OR", "1", "Class A")]);
    assert_eq!(loaded[0].number.as_str().parse::<f64>().unwrap(), 1.0);
    assert_eq!(loaded[0].county, "Klamath");
}

#[test]
fn row_with_every_field() {
    let data = with_header(&[
        "I saw it,\"Near the lake, north shore\",Klamath,OR,Report 1,42.1,-121.5,2001-07-04,26056,Class B,9r2xk,80.5,70.25,60,55.5,0.4,0.1,0.5,0,0.0,rain,1015.2,Clear all day,7,10,180,3.5",
    ]);
    let loaded = load_sightings(&data).unwrap();
    let expected = Sighting {
        observed: Some(String::from("I saw it")),
        location_details: Some(String::from("Near the lake, north shore")),
        county: String::from("Klamath"),
        state: String::from("OR"),
        title: Some(String::from("Report 1")),
        latitude: Some(numeral("42.1")),
        longitude: Some(numeral("-121.5")),
        date: Some(String::from("2001-07-04")),
        number: numeral("26056"),
        classification: String::from("Class B"),
        geohash: Some(String::from("9r2xk")),
        temperature_high: Some(numeral("80.5")),
        temperature_mid: Some(numeral("70.25")),
        temperature_low: Some(numeral("60")),
        dew_point: Some(numeral("55.5")),
        humidity: Some(numeral("0.4")),
        cloud_cover: Some(numeral("0.1")),
        moon_phase: Some(numeral("0.5")),
        precip_intensity: Some(numeral("0")),
        precip_probability: Some(numeral("0.0")),
        precip_type: Some(String::from("rain")),
        pressure: Some(numeral("1015.2")),
        summary: Some(String::from("Clear all day")),
        uv_index: Some(numeral("7")),
        visibility: Some(numeral("10")),
        wind_bearing: Some(numeral("180")),
        wind_speed: Some(numeral("3.5")),
    };
    assert_eq!(loaded, vec![expected]);
}

#[test]
fn as_many_records_as_data_rows() {
    let mut rows: Vec<String> = Vec::new();
    for n in 0..57 {
        rows.push(format!(",,County {},WA,,,,,{},Class A,,,,,,,,,,,,,,,,,", n, n));
    }
    let borrowed: Vec<&str> = rows.iter().map(|row| row.as_str()).collect();
    let loaded = load_sightings(&with_header(&borrowed)).unwrap();
    assert_eq!(loaded.len(), 57);
}

#[test]
fn records_keep_the_order_of_the_rows() {
    let data = with_header(&[
        ",,Third,OR,,,,,3,Class A,,,,,,,,,,,,,,,,,",
        ",,First,OR,,,,,1,Class B,,,,,,,,,,,,,,,,,",
        ",,Second,OR,,,,,2,Class C,,,,,,,,,,,,,,,,,",
    ]);
    let loaded = load_sightings(&data).unwrap();
    let counties: Vec<&str> = loaded.iter().map(|s| s.county.as_str()).collect();
    assert_eq!(counties, vec!["Third", "First", "Second"]);
    let numbers: Vec<&str> = loaded.iter().map(|s| s.number.as_str()).collect();
    assert_eq!(numbers, vec!["3", "1", "2"]);
}

#[test]
fn no_text_gives_no_records() {
    assert_eq!(load_sightings(b""), Ok(vec![]));
}

#[test]
fn header_alone_gives_no_records() {
    assert_eq!(load_sightings(&with_header(&[])), Ok(vec![]));
    assert_eq!(load_sightings(b"county,state\n"), Ok(vec![]));
}

#[test]
fn columns_may_come_in_any_order() {
    let data = b"classification,number,state,county\nClass A,1,OR,Klamath\n";
    assert_eq!(load_sightings(data), Ok(vec![bare("Klamath", "OR", "1", "Class A")]));
}

#[test]
fn unknown_columns_are_passed_over() {
    let data = b"county,season,state,number,classification\nKlamath,Summer,OR,not a field,Class A\n";
    match load_sightings(data) {
        Err(LoadError::InvalidNumber { row, column }) => {
            assert_eq!((row, column), (1, 3));
        }
        other => panic!("unexpected: {:?}", other),
    }
    let data = b"county,season,state,number,classification\nKlamath,not a number,OR,5,Class A\n";
    assert_eq!(load_sightings(data), Ok(vec![bare("Klamath", "OR", "5", "Class A")]));
}

#[test]
fn empty_required_text_is_kept_as_empty_text() {
    let data = b"county,state,number,classification\n,,1,\n";
    assert_eq!(load_sightings(data), Ok(vec![bare("", "", "1", "")]));
}

#[test]
fn empty_optional_cells_are_missing_values() {
    let data = b"county,state,number,classification,title,latitude\nKlamath,OR,1,Class A,,\n";
    let loaded = load_sightings(data).unwrap();
    assert_eq!(loaded[0].title, None);
    assert_eq!(loaded[0].latitude, None);
}

#[test]
fn number_that_is_no_number_fails_the_load() {
    let data = with_header(&[
        ",,Klamath,OR,,,,,1,Class A,,,,,,,,,,,,,,,,,",
        ",,Lane,OR,,,,,one,Class A,,,,,,,,,,,,,,,,,",
        ",,Coos,OR,,,,,3,Class A,,,,,,,,,,,,,,,,,",
    ]);
    assert_eq!(load_sightings(&data), Err(LoadError::InvalidNumber { row: 2, column: 8 }));
}

#[test]
fn empty_number_fails_the_load() {
    let data = with_header(&[",,Klamath,OR,,,,,,Class A,,,,,,,,,,,,,,,,,"]);
    assert_eq!(load_sightings(&data), Err(LoadError::InvalidNumber { row: 1, column: 8 }));
}

#[test]
fn optional_number_that_is_no_number_fails_the_load() {
    let data = with_header(&[",,Klamath,OR,,north,,,1,Class A,,,,,,,,,,,,,,,,,"]);
    assert_eq!(load_sightings(&data), Err(LoadError::InvalidNumber { row: 1, column: 5 }));
}

#[test]
fn number_with_spaces_fails_the_load() {
    let data = b"county,state,number,classification\nKlamath,OR, 1,Class A\n";
    assert_eq!(load_sightings(data), Err(LoadError::InvalidNumber { row: 1, column: 2 }));
}

#[test]
fn first_faulty_column_is_reported() {
    let data = b"county,state,latitude,number,classification\nKlamath,OR,up,down,Class A\n";
    assert_eq!(load_sightings(data), Err(LoadError::InvalidNumber { row: 1, column: 2 }));
}

#[test]
fn missing_required_column_fails_the_load() {
    let data = b"county,state,number\nKlamath,OR,1\n";
    assert_eq!(
        load_sightings(data),
        Err(LoadError::MissingField { row: 1, field: CLASSIFICATION })
    );
}

#[test]
fn first_missing_field_is_reported() {
    let data = b"title\nReport\n";
    assert_eq!(load_sightings(data), Err(LoadError::MissingField { row: 1, field: COUNTY }));
    let data = b"county,title\nKlamath,Report\n";
    assert_eq!(load_sightings(data), Err(LoadError::MissingField { row: 1, field: STATE }));
    let data = b"county,state,classification\nKlamath,OR,Class A\n";
    assert_eq!(load_sightings(data), Err(LoadError::MissingField { row: 1, field: NUMBER }));
}

#[test]
fn faulty_cell_is_reported_before_a_missing_field() {
    let data = b"county,latitude\nKlamath,north\n";
    assert_eq!(load_sightings(data), Err(LoadError::InvalidNumber { row: 1, column: 1 }));
}

#[test]
fn repeated_column_fails_the_load() {
    let data = b"county,state,number,classification,county\nKlamath,OR,1,Class A,Lane\n";
    assert_eq!(load_sightings(data), Err(LoadError::DuplicateColumn { row: 1, column: 4 }));
}

#[test]
fn repeated_unknown_column_is_no_fault() {
    let data = b"county,state,number,classification,season,season\nKlamath,OR,1,Class A,a,b\n";
    assert_eq!(load_sightings(data), Ok(vec![bare("Klamath", "OR", "1", "Class A")]));
}

#[test]
fn row_of_another_width_fails_the_load() {
    let data = b"county,state,number,classification\nKlamath,OR,1,Class A\nLane,OR,2\n";
    match load_sightings(data) {
        Err(LoadError::Syntax { row, detail }) => {
            assert_eq!(row, 2);
            assert!(!detail.is_empty());
        }
        other => panic!("unexpected: {:?}", other),
    }
}

#[test]
fn text_that_is_not_utf8_fails_the_load() {
    let data = b"county,state,number,classification\nKlam\xffath,OR,1,Class A\n";
    match load_sightings(data) {
        Err(LoadError::Syntax { row, detail }) => {
            assert_eq!(row, 1);
            assert!(!detail.is_empty());
        }
        other => panic!("unexpected: {:?}", other),
    }
}

#[test]
fn earlier_faulty_row_is_reported_before_a_broken_row() {
    let data = b"county,state,number,classification\nKlamath,OR,x,Class A\nLane,OR,2\n";
    assert_eq!(load_sightings(data), Err(LoadError::InvalidNumber { row: 1, column: 2 }));
}

#[test]
fn failed_load_gives_no_records_at_all() {
    let data = with_header(&[
        ",,Klamath,OR,,,,,1,Class A,,,,,,,,,,,,,,,,,",
        ",,Lane,OR,,,,,2,Class A,,,,,,,,,,,,,,,,,",
        ",,Coos,OR,,,,,three,Class A,,,,,,,,,,,,,,,,,",
    ]);
    assert!(load_sightings(&data).is_err());
}

#[test]
fn quoted_cells_are_read_whole() {
    let data = b"county,state,number,classification,observed\n\"Klamath\",OR,1,Class A,\"He said \"\"look\"\",\nthen ran\"\n";
    let loaded = load_sightings(data).unwrap();
    assert_eq!(loaded.len(), 1);
    assert_eq!(loaded[0].observed, Some(String::from("He said \"look\",\nthen ran")));
}

#[test]
fn empty_lines_are_no_rows() {
    let data = b"county,state,number,classification\n\nKlamath,OR,1,Class A\n\n\nLane,OR,2,Class B\n";
    let loaded = load_sightings(data).unwrap();
    assert_eq!(loaded.len(), 2);
}

#[test]
fn last_row_needs_no_line_end() {
    let data = b"county,state,number,classification\nKlamath,OR,1,Class A";
    assert_eq!(load_sightings(data), Ok(vec![bare("Klamath", "OR", "1", "Class A")]));
}

#[test]
fn rows_are_read_as_they_are_given() {
    let rows = vec![
        cells(&["number", "county", "state", "classification", "humidity"]),
        cells(&["1", "Klamath", "OR", "Class A", ""]),
        cells(&["2.5", "Lane", "OR", "Class B", "0.75"]),
    ];
    let loaded = read_rows(&rows, None).unwrap();
    let mut second = bare("Lane", "OR", "2.5", "Class B");
    second.humidity = Some(numeral("0.75"));
    assert_eq!(loaded, vec![bare("Klamath", "OR", "1", "Class A"), second]);
}

#[test]
fn no_rows_give_no_records() {
    let rows: Vec<Vec<String>> = Vec::new();
    assert_eq!(read_rows(&rows, None), Ok(vec![]));
}

#[test]
fn failure_after_sound_rows_is_reported_at_the_next_row() {
    let rows = vec![
        cells(&["number", "county", "state", "classification"]),
        cells(&["1", "Klamath", "OR", "Class A"]),
    ];
    assert_eq!(
        read_rows(&rows, Some(String::from("broken"))),
        Err(LoadError::Syntax { row: 2, detail: String::from("broken") })
    );
    let none: Vec<Vec<String>> = Vec::new();
    assert_eq!(
        read_rows(&none, Some(String::from("broken"))),
        Err(LoadError::Syntax { row: 0, detail: String::from("broken") })
    );
}

#[test]
fn fault_in_a_row_is_reported_before_a_failure_after_it() {
    let rows = vec![
        cells(&["number", "county", "state", "classification"]),
        cells(&["one", "Klamath", "OR", "Class A"]),
    ];
    assert_eq!(
        read_rows(&rows, Some(String::from("broken"))),
        Err(LoadError::InvalidNumber { row: 1, column: 0 })
    );
}

#[test]
fn ragged_row_is_a_syntax_fault() {
    let rows = vec![
        cells(&["number", "county", "state", "classification"]),
        cells(&["1", "Klamath", "OR", "Class A"]),
        cells(&["2", "Lane", "OR", "Class A", "extra"]),
        cells(&["x", "Coos", "OR", "Class A"]),
    ];
    assert_eq!(
        read_rows(&rows, None),
        Err(LoadError::Syntax { row: 2, detail: String::new() })
    );
}
