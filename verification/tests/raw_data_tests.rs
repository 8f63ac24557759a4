use insight_v3_core::raw_data::{
    InsertTimeouts, RawDataError, RawDataRecord, TableName, MAX_TABLE_NAME_CHARS, RAW_DATA_TABLE,
};
use serde_json::{Number, Value};

fn object(entries: Vec<(&str, Value)>) -> Value {
    let mut map = serde_json::Map::new();
    for (key, value) in entries {
        map.insert(key.to_owned(), value);
    }
    Value::Object(map)
}

#[test]
fn logical_table_name_is_trimmed() {
    let record = RawDataRecord::parse("  synthetic.events  ", &object(vec![("value", Value::from(1))]))
        .unwrap_or_else(|error| panic!("record must parse: {}", error.message()));

    assert_eq!(record.table_name(), "synthetic.events");
}

#[test]
fn arbitrary_json_values_are_accepted() {
    for value in [
        Value::Null,
        Value::Bool(true),
        Value::Number(Number::from(42)),
        Value::String("text".to_owned()),
        Value::Array(vec![Value::from(1), object(vec![("nested", Value::Bool(false))])]),
        object(vec![(
            "nested",
            Value::Array(vec![Value::from(1), Value::from(2), Value::from(3)]),
        )]),
    ] {
        assert!(
            RawDataRecord::parse("synthetic.events", &value).is_ok(),
            "every JSON shape must be accepted"
        );
    }
}

#[test]
fn blank_and_overlong_table_names_are_rejected() {
    for table in ["", "   ", &"x".repeat(MAX_TABLE_NAME_CHARS + 1)] {
        assert!(
            RawDataRecord::parse(table, &Value::Null).is_err(),
            "must reject logical table name: {table:?}"
        );
    }
}

#[test]
fn raw_data_is_stored_as_compact_json_text() {
    let value = object(vec![(
        "nested",
        Value::Array(vec![Value::from(1), Value::Bool(true), Value::Null]),
    )]);
    let record = RawDataRecord::parse("synthetic.events", &value)
        .unwrap_or_else(|error| panic!("record must parse: {}", error.message()));
    assert_eq!(record.raw_data(), r#"{"nested":[1,true,null]}"#);

    let row = record.into_row();
    assert_eq!(row.table_name, "synthetic.events");
    assert_eq!(row.raw_data, r#"{"nested":[1,true,null]}"#);
    assert_ne!(row.id, uuid::Uuid::nil());
    assert!(row.received_at_millis > 0);
}

#[test]
fn table_name_limit_counts_characters_not_bytes() {
    let at_limit = "ö".repeat(MAX_TABLE_NAME_CHARS);
    let name = TableName::parse(&at_limit)
        .unwrap_or_else(|error| panic!("128 characters must pass: {}", error.message()));
    assert_eq!(name.as_str(), at_limit);
    assert_eq!(name.into_string(), at_limit);

    let over = format!(" {} ", "ö".repeat(MAX_TABLE_NAME_CHARS + 1));
    assert!(matches!(TableName::parse(&over), Err(RawDataError::TableNameTooLong)));
    assert!(matches!(TableName::parse("\u{2003}\n"), Err(RawDataError::EmptyTableName)));
}

#[test]
fn raw_data_error_messages() {
    assert_eq!(RawDataError::EmptyTableName.message(), "table must not be blank");
    assert_eq!(RawDataError::TableNameTooLong.message(), "table must be at most 128 characters");
}

#[test]
fn production_timeouts_and_fixed_table() {
    let timeouts = InsertTimeouts::production();
    assert_eq!(timeouts.send, std::time::Duration::from_secs(10));
    assert_eq!(timeouts.end, std::time::Duration::from_secs(30));
    assert_eq!(timeouts.total, std::time::Duration::from_secs(35));
    assert_eq!(RAW_DATA_TABLE, "raw_data");
}

#[test]
fn row_takes_the_given_identifier_and_time() {
    let record = RawDataRecord::parse(" events ", &Value::from(7))
        .unwrap_or_else(|error| panic!("record must parse: {}", error.message()));
    let id = uuid::Uuid::from_u128(0x0123_4567_89ab_7def_8123_4567_89ab_cdef);
    let row = record.into_row_at(id, 1_700_000_000_000);
    assert_eq!(row.id, id);
    assert_eq!(row.table_name, "events");
    assert_eq!(row.raw_data, "7");
    assert_eq!(row.received_at_millis, 1_700_000_000_000);
}

#[test]
fn fresh_rows_have_version_seven_identifiers() {
    let record = RawDataRecord::parse("events", &Value::Null)
        .unwrap_or_else(|error| panic!("record must parse: {}", error.message()));
    let row = record.into_row();
    assert_eq!(row.id.get_version_num(), 7);
    assert!(!row.id.is_nil());
}
