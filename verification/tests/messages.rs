use bigfoot_sightings::fault::LoadError;
use bigfoot_sightings::loader::load_sightings;
use bigfoot_sightings::schema::{CLASSIFICATION, FIELD_COUNT};

#[test]
fn message_of_a_number_fault() {
    let error = LoadError::InvalidNumber { row: 12, column: 8 };
    assert_eq!(error.message(), "row 12, column 8: not a number");
}

#[test]
fn message_of_a_repeated_column() {
    let error = LoadError::DuplicateColumn { row: 1, column: 30 };
    assert_eq!(error.message(), "row 1, column 30: a field is named twice");
}

#[test]
fn message_of_a_missing_field() {
    let error = LoadError::MissingField { row: 1, field: CLASSIFICATION };
    assert_eq!(error.message(), "row 1: no column named classification");
    let beyond = LoadError::MissingField { row: 1, field: FIELD_COUNT };
    assert_eq!(beyond.message(), "row 1: no column named 27");
}

#[test]
fn message_of_a_syntax_fault() {
    let error = LoadError::Syntax { row: 3, detail: String::from("unequal lengths") };
    assert_eq!(error.message(), "row 3: unequal lengths");
}

#[test]
fn message_of_a_failed_load_names_row_and_column() {
    let data = b"county,state,number,classification\nKlamath,OR,1,Class A\nLane,OR,x,Class A\n";
    let error = load_sightings(data).unwrap_err();
    assert_eq!(error.message(), "row 2, column 2: not a number");
}

#[test]
fn message_of_a_broken_row_carries_the_reader_words() {
    let data = b"county,state,number,classification\nKlamath,OR,1\n";
    let message = load_sightings(data).unwrap_err().message();
    assert!(message.starts_with("row 1: "));
    assert!(message.len() > "row 1: ".len());
}
