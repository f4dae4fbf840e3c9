use greptime_ingester::error::RustError;
use greptime_ingester::proto::{ProtoValue, ValueData};
use greptime_ingester::rows::{check_new_batch_pointers, convert_row, RowBatch};
use greptime_ingester::schema::{ColumnSchema, DataType, SemanticType};
use greptime_ingester::value::Value;

fn schemas() -> Vec<ColumnSchema> {
    vec![
        ColumnSchema {
            name: Some(b"host".to_vec()),
            data_type: DataType::String,
            semantic_type: SemanticType::Tag,
        },
        ColumnSchema {
            name: Some(b"cpu".to_vec()),
            data_type: DataType::I32,
            semantic_type: SemanticType::Field,
        },
        ColumnSchema {
            name: Some(b"ts".to_vec()),
            data_type: DataType::TimestampMillisecond,
            semantic_type: SemanticType::Timestamp,
        },
    ]
}

#[test]
fn request_holds_every_pushed_row_in_order() {
    let mut batch = RowBatch::new_with_capacity(Some(b"monitor"), 4, &schemas()).unwrap();
    assert!(!batch.is_spent());
    batch.push_row(&[
        Value::StringValueNull,
        Value::I32Value(10),
        Value::TimestampValueMillisecond(1000),
    ])
    .unwrap();
    batch.push_row(&[
        Value::StringValueNull,
        Value::I32ValueNull,
        Value::TimestampValueMillisecond(2000),
    ])
    .unwrap();
    let requests = batch.take_insert_requests();
    assert!(batch.is_spent());
    assert_eq!(requests.inserts.len(), 1);
    let insert = &requests.inserts[0];
    assert_eq!(insert.table_name, "monitor");
    let rows = insert.rows.as_ref().unwrap();
    assert_eq!(rows.schema.len(), 3);
    assert_eq!(rows.schema[0].column_name, "host");
    assert_eq!(rows.schema[0].datatype, 12);
    assert_eq!(rows.schema[0].semantic_type, 0);
    assert_eq!(rows.schema[1].column_name, "cpu");
    assert_eq!(rows.schema[1].datatype, 3);
    assert_eq!(rows.schema[2].column_name, "ts");
    assert_eq!(rows.schema[2].semantic_type, 2);
    assert_eq!(rows.rows.len(), 2);
    assert_eq!(
        rows.rows[0].values,
        vec![
            ProtoValue { value_data: None },
            ProtoValue { value_data: Some(ValueData::I32Value(10)) },
            ProtoValue { value_data: Some(ValueData::TimestampMillisecondValue(1000)) },
        ]
    );
    assert_eq!(
        rows.rows[1].values,
        vec![
            ProtoValue { value_data: None },
            ProtoValue { value_data: None },
            ProtoValue { value_data: Some(ValueData::TimestampMillisecondValue(2000)) },
        ]
    );
}

#[test]
fn new_batch_has_no_rows() {
    let batch = RowBatch::new_with_capacity(Some(b"t"), 0, &[]).unwrap();
    let request = batch.into_insert_request();
    assert_eq!(request.table_name, "t");
    let rows = request.rows.unwrap();
    assert!(rows.schema.is_empty());
    assert!(rows.rows.is_empty());
}

#[test]
fn into_insert_request_carries_rows() {
    let mut batch = RowBatch::new_with_capacity(Some(b"t"), 1, &schemas()[1..2]).unwrap();
    batch.push_row(&[Value::I32Value(-5)]).unwrap();
    let request = batch.into_insert_request();
    let rows = request.rows.unwrap();
    assert_eq!(rows.schema[0].column_name, "cpu");
    assert_eq!(
        rows.rows[0].values,
        vec![ProtoValue { value_data: Some(ValueData::I32Value(-5)) }]
    );
}

#[test]
fn null_table_name_fails() {
    match RowBatch::new_with_capacity(None, 1, &schemas()) {
        Err(RustError::NullPointer { detail }) => assert_eq!(detail, "c_str"),
        _ => panic!("expected a null-pointer error"),
    }
}

#[test]
fn bad_table_name_fails_before_schemas() {
    let bad = vec![ColumnSchema {
        name: None,
        data_type: DataType::I8,
        semantic_type: SemanticType::Tag,
    }];
    match RowBatch::new_with_capacity(Some(&[0xff]), 1, &bad) {
        Err(RustError::ConvertUtf8 { detail, .. }) => assert_eq!(detail, "c_str"),
        _ => panic!("expected a UTF-8 error"),
    }
}

#[test]
fn first_failing_schema_gives_the_error() {
    let mut s = schemas();
    s[1].name = Some(vec![0xfe]);
    s[2].name = None;
    match RowBatch::new_with_capacity(Some(b"t"), 1, &s) {
        Err(RustError::ConvertUtf8 { detail, .. }) => assert_eq!(detail, "c_str"),
        _ => panic!("expected the UTF-8 error of the second schema"),
    }
}

#[test]
fn string_and_binary_rows_are_pushed() {
    let mut batch = RowBatch::new_with_capacity(Some(b"logs"), 1, &[]).unwrap();
    batch
        .push_row(&[
            Value::StringValue(Some(b"web-1".to_vec())),
            Value::BinaryValue(vec![1, 2, 3]),
        ])
        .unwrap();
    let rows = batch.into_insert_request().rows.unwrap();
    assert_eq!(
        rows.rows[0].values,
        vec![
            ProtoValue { value_data: Some(ValueData::StringValue("web-1".to_string())) },
            ProtoValue { value_data: Some(ValueData::BinaryValue(vec![1, 2, 3])) },
        ]
    );
}

#[test]
fn failed_push_leaves_the_batch_unchanged() {
    let mut batch = RowBatch::new_with_capacity(Some(b"logs"), 1, &[]).unwrap();
    batch.push_row(&[Value::I8Value(1)]).unwrap();
    match batch.push_row(&[
        Value::I8Value(2),
        Value::StringValue(Some(vec![0xc3])),
        Value::StringValue(None),
    ]) {
        Err(RustError::ConvertUtf8 { valid_up_to, error_len, .. }) => {
            assert_eq!(valid_up_to, 0);
            assert_eq!(error_len, None);
        }
        _ => panic!("expected the first bad value's error"),
    }
    let rows = batch.into_insert_request().rows.unwrap();
    assert_eq!(rows.rows.len(), 1);
    assert_eq!(
        rows.rows[0].values,
        vec![ProtoValue { value_data: Some(ValueData::I8Value(1)) }]
    );
}

#[test]
fn convert_row_stops_at_first_error() {
    assert!(convert_row(&[Value::I8Value(1), Value::StringValue(None)]).is_err());
    let row = convert_row(&[Value::U8ValueNull, Value::U8Value(3)]).unwrap();
    assert_eq!(
        row.values,
        vec![
            ProtoValue { value_data: None },
            ProtoValue { value_data: Some(ValueData::U8Value(3)) },
        ]
    );
}

#[test]
fn new_batch_pointer_checks_in_order() {
    assert!(check_new_batch_pointers(true, true).is_ok());
    match check_new_batch_pointers(false, false) {
        Err(RustError::NullPointer { detail }) => assert_eq!(detail, "row_batch_ptr"),
        _ => panic!("expected the batch pointer's error"),
    }
    match check_new_batch_pointers(true, false) {
        Err(RustError::NullPointer { detail }) => assert_eq!(detail, "column_schema_ptr"),
        _ => panic!("expected the schema pointer's error"),
    }
}
