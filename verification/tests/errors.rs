use twotter::errors::{decimal_string, TwotterError};

#[test]
fn decimal_string_renders_exact_digits() {
    assert_eq!(decimal_string(0), "0");
    assert_eq!(decimal_string(7), "7");
    assert_eq!(decimal_string(145), "145");
    assert_eq!(decimal_string(10_000), "10000");
    assert_eq!(decimal_string(usize::MAX), usize::MAX.to_string());
}

#[test]
fn multiple_results_renders_fixed_json() {
    let e = TwotterError::MultipleResults { table: "user".to_string() };
    assert_eq!(e.render(), "{\"error\": \"user has multiple results, expected one.\"}");
}

#[test]
fn record_not_found_renders_fixed_json() {
    let e = TwotterError::RecordNotFound { table: "user".to_string() };
    assert_eq!(e.render(), "{\"error\": \"Record in user not found.\"}");
}

#[test]
fn db_insert_error_renders_fixed_json() {
    let e = TwotterError::DBInsertError { table: "tweet".to_string() };
    assert_eq!(e.render(), "{\"error\": \"Could not insert record in table tweet\"}");
}

#[test]
fn db_update_error_renders_fixed_json() {
    let e = TwotterError::DBUpdateError { table: "tweet".to_string() };
    assert_eq!(e.render(), "{\"error\": \"Could not update record in table tweet\"}");
}

#[test]
fn twoot_max_char_exceeded_renders_submitted_length() {
    let e = TwotterError::TwootMaxCharExceeded { numchar: 145 };
    assert_eq!(e.render(), "{\"error\": \"Maximum number of characters exceeded (145)\"}");
}

#[test]
fn invalid_conversion_renders_its_message() {
    let e = TwotterError::InvalidConversion { message: "bad value".to_string() };
    assert_eq!(e.render(), "{\"error\": \"bad value\"}");
}

#[test]
fn rendered_errors_are_valid_json_objects() {
    let errors = vec![
        TwotterError::MultipleResults { table: "user".to_string() },
        TwotterError::RecordNotFound { table: "twoot".to_string() },
        TwotterError::DBInsertError { table: "tweet".to_string() },
        TwotterError::DBUpdateError { table: "tweet".to_string() },
        TwotterError::TwootMaxCharExceeded { numchar: 200 },
        TwotterError::InvalidConversion { message: "bad value".to_string() },
    ];
    for e in errors {
        let value: serde_json::Value = serde_json::from_str(&e.render()).unwrap();
        let body = value.as_object().unwrap();
        assert!(body.get("error").unwrap().is_string());
    }
}
