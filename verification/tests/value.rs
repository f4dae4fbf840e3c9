use greptime_ingester::error::RustError;
use greptime_ingester::proto::ValueData;
use greptime_ingester::value::Value;

fn data(v: Value) -> Option<ValueData> {
    v.to_proto().unwrap().value_data
}

#[test]
fn booleans_are_true_when_nonzero() {
    assert_eq!(data(Value::BoolValue(0)), Some(ValueData::BoolValue(false)));
    assert_eq!(data(Value::BoolValue(1)), Some(ValueData::BoolValue(true)));
    assert_eq!(data(Value::BoolValue(7)), Some(ValueData::BoolValue(true)));
}

#[test]
fn narrow_integers_are_widened() {
    assert_eq!(data(Value::I8Value(-1)), Some(ValueData::I8Value(-1)));
    assert_eq!(data(Value::I16Value(-300)), Some(ValueData::I16Value(-300)));
    assert_eq!(data(Value::U8Value(255)), Some(ValueData::U8Value(255)));
    assert_eq!(data(Value::U16Value(65535)), Some(ValueData::U16Value(65535)));
}

#[test]
fn wide_integers_and_timestamps_are_kept() {
    assert_eq!(data(Value::I32Value(i32::MIN)), Some(ValueData::I32Value(i32::MIN)));
    assert_eq!(data(Value::I64Value(i64::MAX)), Some(ValueData::I64Value(i64::MAX)));
    assert_eq!(data(Value::U32Value(u32::MAX)), Some(ValueData::U32Value(u32::MAX)));
    assert_eq!(data(Value::U64Value(u64::MAX)), Some(ValueData::U64Value(u64::MAX)));
    assert_eq!(
        data(Value::TimestampValueSecond(1_700_000_000)),
        Some(ValueData::TimestampSecondValue(1_700_000_000))
    );
    assert_eq!(
        data(Value::TimestampValueMillisecond(5)),
        Some(ValueData::TimestampMillisecondValue(5))
    );
    assert_eq!(
        data(Value::TimestampValueMicrosecond(6)),
        Some(ValueData::TimestampMicrosecondValue(6))
    );
    assert_eq!(
        data(Value::TimestampValueNanosecond(-7)),
        Some(ValueData::TimestampNanosecondValue(-7))
    );
}

#[test]
fn floats_keep_their_bits() {
    let f: f32 = 1.5;
    let d: f64 = -2.25;
    assert_eq!(
        data(Value::F32Value(f.to_bits())),
        Some(ValueData::F32Value(f.to_bits()))
    );
    assert_eq!(
        data(Value::F64Value(d.to_bits())),
        Some(ValueData::F64Value(d.to_bits()))
    );
}

#[test]
fn nulls_have_no_payload() {
    let nulls = [
        Value::BoolValueNull,
        Value::I8ValueNull,
        Value::I16ValueNull,
        Value::I32ValueNull,
        Value::I64ValueNull,
        Value::U8ValueNull,
        Value::U16ValueNull,
        Value::U32ValueNull,
        Value::U64ValueNull,
        Value::F32ValueNull,
        Value::F64ValueNull,
        Value::StringValueNull,
        Value::BinaryValueNull,
        Value::TimestampValueSecondNull,
        Value::TimestampValueMillisecondNull,
        Value::TimestampValueMicrosecondNull,
        Value::TimestampValueNanosecondNull,
    ];
    for v in nulls {
        assert_eq!(data(v), None);
    }
}

#[test]
fn strings_are_decoded() {
    assert_eq!(
        data(Value::StringValue(Some("héllo".as_bytes().to_vec()))),
        Some(ValueData::StringValue("héllo".to_string()))
    );
    assert_eq!(
        data(Value::StringValue(Some(Vec::new()))),
        Some(ValueData::StringValue(String::new()))
    );
}

#[test]
fn bad_strings_fail() {
    match Value::StringValue(Some(vec![0x61, 0xff])).to_proto() {
        Err(RustError::ConvertUtf8 { detail, valid_up_to, error_len }) => {
            assert_eq!(detail, "c_str");
            assert_eq!(valid_up_to, 1);
            assert_eq!(error_len, Some(1));
        }
        other => panic!("unexpected {:?}", other),
    }
    match Value::StringValue(None).to_proto() {
        Err(RustError::NullPointer { detail }) => assert_eq!(detail, "c_str"),
        other => panic!("unexpected {:?}", other),
    }
}

#[test]
fn binaries_keep_their_bytes() {
    assert_eq!(
        data(Value::BinaryValue(vec![0, 0xff, 0x80])),
        Some(ValueData::BinaryValue(vec![0, 0xff, 0x80]))
    );
    assert_eq!(
        data(Value::BinaryValue(Vec::new())),
        Some(ValueData::BinaryValue(Vec::new()))
    );
}
