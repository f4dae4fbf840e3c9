//! The values a C caller puts in a row, and their wire form.
use vstd::prelude::*;
use libc::{c_char, c_int, c_long, c_short, c_uchar, c_uint, c_ulong, c_ushort};

use crate::error::{RustErrorView, RustResult};
use crate::proto::{ProtoValue, ValueData, ValueDataView, ValueView};
use crate::schema::DataType;
use crate::utils::{c_string_outcome, convert_owned_c_string, vec_c_bytes};
use vstd::utf8::*;

verus! {

/// A value of a row, as a C caller gives it. A float is held by its
/// IEEE-754 bits; a string by the bytes of its C string (`None` for a null
/// pointer); a binary value by its bytes.
#[derive(Debug)]
pub enum Value {
    BoolValue(c_char),
    I8Value(c_char),
    I16Value(c_short),
    I32Value(c_int),
    I64Value(c_long),
    U8Value(c_uchar),
    U16Value(c_ushort),
    U32Value(c_uint),
    U64Value(c_ulong),
    F32Value(u32),
    F64Value(u64),
    StringValue(Option<Vec<u8>>),
    BinaryValue(Vec<u8>),
    TimestampValueSecond(c_long),
    TimestampValueMillisecond(c_long),
    TimestampValueMicrosecond(c_long),
    TimestampValueNanosecond(c_long),
    BoolValueNull,
    I8ValueNull,
    I16ValueNull,
    I32ValueNull,
    I64ValueNull,
    U8ValueNull,
    U16ValueNull,
    U32ValueNull,
    U64ValueNull,
    F32ValueNull,
    F64ValueNull,
    StringValueNull,
    BinaryValueNull,
    TimestampValueSecondNull,
    TimestampValueMillisecondNull,
    TimestampValueMicrosecondNull,
    TimestampValueNanosecondNull,
}

impl Value {
    /// Whether the value is one of the null variants.
    pub open spec fn is_null(self) -> bool {
        match self {
            Value::BoolValueNull | Value::I8ValueNull | Value::I16ValueNull | Value::I32ValueNull
            | Value::I64ValueNull | Value::U8ValueNull | Value::U16ValueNull | Value::U32ValueNull
            | Value::U64ValueNull | Value::F32ValueNull | Value::F64ValueNull
            | Value::StringValueNull | Value::BinaryValueNull | Value::TimestampValueSecondNull
            | Value::TimestampValueMillisecondNull | Value::TimestampValueMicrosecondNull
            | Value::TimestampValueNanosecondNull => true,
            _ => false,
        }
    }

    /// The column type the value belongs to.
    pub open spec fn data_type(self) -> DataType {
        match self {
            Value::BoolValue(_) | Value::BoolValueNull => DataType::Boolean,
            Value::I8Value(_) | Value::I8ValueNull => DataType::I8,
            Value::I16Value(_) | Value::I16ValueNull => DataType::I16,
            Value::I32Value(_) | Value::I32ValueNull => DataType::I32,
            Value::I64Value(_) | Value::I64ValueNull => DataType::I64,
            Value::U8Value(_) | Value::U8ValueNull => DataType::U8,
            Value::U16Value(_) | Value::U16ValueNull => DataType::U16,
            Value::U32Value(_) | Value::U32ValueNull => DataType::U32,
            Value::U64Value(_) | Value::U64ValueNull => DataType::U64,
            Value::F32Value(_) | Value::F32ValueNull => DataType::F32,
            Value::F64Value(_) | Value::F64ValueNull => DataType::F64,
            Value::StringValue(_) | Value::StringValueNull => DataType::String,
            Value::BinaryValue(_) | Value::BinaryValueNull => DataType::Binary,
            Value::TimestampValueSecond(_) | Value::TimestampValueSecondNull => DataType::TimestampSecond,
            Value::TimestampValueMillisecond(_)
            | Value::TimestampValueMillisecondNull => DataType::TimestampMillisecond,
            Value::TimestampValueMicrosecond(_)
            | Value::TimestampValueMicrosecondNull => DataType::TimestampMicrosecond,
            Value::TimestampValueNanosecond(_)
            | Value::TimestampValueNanosecondNull => DataType::TimestampNanosecond,
        }
    }
}

/// What converting a value gives: a boolean is true when its byte is not
/// zero, narrow integers are widened to the wire's 32-bit integers, a string
/// is its C string converted (failing as that conversion fails), a binary
/// value keeps its bytes, every other value keeps its number, and a null has
/// no payload.
pub open spec fn value_outcome(v: Value) -> Result<ValueView, RustErrorView> {
    match v {
        Value::BoolValue(b) => Ok(Some(ValueDataView::BoolValue(b != 0))),
        Value::I8Value(x) => Ok(Some(ValueDataView::I8Value(x as i32))),
        Value::I16Value(x) => Ok(Some(ValueDataView::I16Value(x as i32))),
        Value::I32Value(x) => Ok(Some(ValueDataView::I32Value(x as i32))),
        Value::I64Value(x) => Ok(Some(ValueDataView::I64Value(x as i64))),
        Value::U8Value(x) => Ok(Some(ValueDataView::U8Value(x as u32))),
        Value::U16Value(x) => Ok(Some(ValueDataView::U16Value(x as u32))),
        Value::U32Value(x) => Ok(Some(ValueDataView::U32Value(x as u32))),
        Value::U64Value(x) => Ok(Some(ValueDataView::U64Value(x as u64))),
        Value::F32Value(bits) => Ok(Some(ValueDataView::F32Value(bits))),
        Value::F64Value(bits) => Ok(Some(ValueDataView::F64Value(bits))),
        Value::StringValue(s) => match c_string_outcome(vec_c_bytes(s)) {
            Ok(chars) => Ok(Some(ValueDataView::StringValue(chars))),
            Err(e) => Err(e),
        },
        Value::BinaryValue(b) => Ok(Some(ValueDataView::BinaryValue(b@))),
        Value::TimestampValueSecond(t) => Ok(Some(ValueDataView::TimestampSecondValue(t as i64))),
        Value::TimestampValueMillisecond(t) => Ok(
            Some(ValueDataView::TimestampMillisecondValue(t as i64)),
        ),
        Value::TimestampValueMicrosecond(t) => Ok(
            Some(ValueDataView::TimestampMicrosecondValue(t as i64)),
        ),
        Value::TimestampValueNanosecond(t) => Ok(
            Some(ValueDataView::TimestampNanosecondValue(t as i64)),
        ),
        _ => Ok(None),
    }
}

/// A wire-value result taken by views.
pub open spec fn proto_value_result(r: RustResult<ProtoValue>) -> Result<ValueView, RustErrorView> {
    match r {
        Ok(v) => Ok(v@),
        Err(e) => Err(e@),
    }
}

/// The column type that a wire payload belongs to.
pub open spec fn value_data_type(d: ValueDataView) -> DataType {
    match d {
        ValueDataView::I8Value(_) => DataType::I8,
        ValueDataView::I16Value(_) => DataType::I16,
        ValueDataView::I32Value(_) => DataType::I32,
        ValueDataView::I64Value(_) => DataType::I64,
        ValueDataView::U8Value(_) => DataType::U8,
        ValueDataView::U16Value(_) => DataType::U16,
        ValueDataView::U32Value(_) => DataType::U32,
        ValueDataView::U64Value(_) => DataType::U64,
        ValueDataView::F32Value(_) => DataType::F32,
        ValueDataView::F64Value(_) => DataType::F64,
        ValueDataView::BoolValue(_) => DataType::Boolean,
        ValueDataView::BinaryValue(_) => DataType::Binary,
        ValueDataView::StringValue(_) => DataType::String,
        ValueDataView::TimestampSecondValue(_) => DataType::TimestampSecond,
        ValueDataView::TimestampMillisecondValue(_) => DataType::TimestampMillisecond,
        ValueDataView::TimestampMicrosecondValue(_) => DataType::TimestampMicrosecond,
        ValueDataView::TimestampNanosecondValue(_) => DataType::TimestampNanosecond,
    }
}

/// The number an integer or timestamp value carries.
pub open spec fn value_int(v: Value) -> Option<int> {
    match v {
        Value::I8Value(x) => Some(x as int),
        Value::I16Value(x) => Some(x as int),
        Value::I32Value(x) => Some(x as int),
        Value::I64Value(x) => Some(x as int),
        Value::U8Value(x) => Some(x as int),
        Value::U16Value(x) => Some(x as int),
        Value::U32Value(x) => Some(x as int),
        Value::U64Value(x) => Some(x as int),
        Value::TimestampValueSecond(t) => Some(t as int),
        Value::TimestampValueMillisecond(t) => Some(t as int),
        Value::TimestampValueMicrosecond(t) => Some(t as int),
        Value::TimestampValueNanosecond(t) => Some(t as int),
        _ => None,
    }
}

/// The number an integer or timestamp payload carries.
pub open spec fn payload_int(d: ValueDataView) -> Option<int> {
    match d {
        ValueDataView::I8Value(x) => Some(x as int),
        ValueDataView::I16Value(x) => Some(x as int),
        ValueDataView::I32Value(x) => Some(x as int),
        ValueDataView::I64Value(x) => Some(x as int),
        ValueDataView::U8Value(x) => Some(x as int),
        ValueDataView::U16Value(x) => Some(x as int),
        ValueDataView::U32Value(x) => Some(x as int),
        ValueDataView::U64Value(x) => Some(x as int),
        ValueDataView::TimestampSecondValue(t) => Some(t as int),
        ValueDataView::TimestampMillisecondValue(t) => Some(t as int),
        ValueDataView::TimestampMicrosecondValue(t) => Some(t as int),
        ValueDataView::TimestampNanosecondValue(t) => Some(t as int),
        _ => None,
    }
}

/// Converting keeps a value's content: an integer or timestamp converts to a
/// payload of its own column type that carries the very same number; a
/// boolean to true exactly when its byte is not zero; a float to the same
/// bits; a binary value to the same bytes; a string converts exactly when its
/// C string is not null and valid UTF-8, to characters that encode back to
/// those bytes; and a null to no payload.
pub proof fn lemma_conversion_keeps_payload(v: Value)
    ensures
        value_int(v) is Some ==> (value_outcome(v) matches Ok(Some(d)) && payload_int(d)
            == value_int(v) && value_data_type(d) == v.data_type()),
        v matches Value::BoolValue(b) ==> value_outcome(v) == Ok::<ValueView, RustErrorView>(
            Some(ValueDataView::BoolValue(b != 0)),
        ),
        v matches Value::F32Value(bits) ==> value_outcome(v) == Ok::<ValueView, RustErrorView>(
            Some(ValueDataView::F32Value(bits)),
        ),
        v matches Value::F64Value(bits) ==> value_outcome(v) == Ok::<ValueView, RustErrorView>(
            Some(ValueDataView::F64Value(bits)),
        ),
        v matches Value::BinaryValue(b) ==> value_outcome(v) == Ok::<ValueView, RustErrorView>(
            Some(ValueDataView::BinaryValue(b@)),
        ),
        v matches Value::StringValue(s) ==> (value_outcome(v) is Ok <==> (vec_c_bytes(s) matches Some(
            b,
        ) && valid_utf8(b))),
        v matches Value::StringValue(s) ==> (value_outcome(v) matches Ok(x) ==> (x matches Some(
            ValueDataView::StringValue(c),
        ) && Some(encode_utf8(c)) == vec_c_bytes(s))),
        v.is_null() ==> value_outcome(v) == Ok::<ValueView, RustErrorView>(None),
{
    if let Value::StringValue(s) = v {
        crate::utils::lemma_c_string_converts_exactly_valid_utf8(vec_c_bytes(s));
    }
}

fn some(d: ValueData) -> (res: RustResult<ProtoValue>)
    ensures
        proto_value_result(res) == Ok::<ValueView, RustErrorView>(Some(d@)),
{
    Ok(ProtoValue { value_data: Some(d) })
}

impl Value {
    /// The wire form of the value; fails only for a string whose C string
    /// cannot be converted.
    pub fn to_proto(&self) -> (res: RustResult<ProtoValue>)
        ensures
            proto_value_result(res) == value_outcome(*self),
            value_int(*self) is Some ==> (res matches Ok(p) && p@ matches Some(d) && payload_int(d)
                == value_int(*self) && value_data_type(d) == self.data_type()),
    {
        proof {
            lemma_conversion_keeps_payload(*self);
        }
        match self {
            Value::BoolValue(val) => some(ValueData::BoolValue(*val != 0)),
            Value::I8Value(val) => some(ValueData::I8Value(*val as i32)),
            Value::I16Value(val) => some(ValueData::I16Value(*val as i32)),
            Value::I32Value(val) => some(ValueData::I32Value(*val)),
            Value::I64Value(val) => some(ValueData::I64Value(*val)),
            Value::U8Value(val) => some(ValueData::U8Value(*val as u32)),
            Value::U16Value(val) => some(ValueData::U16Value(*val as u32)),
            Value::U32Value(val) => some(ValueData::U32Value(*val)),
            Value::U64Value(val) => some(ValueData::U64Value(*val)),
            Value::F32Value(bits) => some(ValueData::F32Value(*bits)),
            Value::F64Value(bits) => some(ValueData::F64Value(*bits)),
            Value::StringValue(s) => match convert_owned_c_string(s) {
                Ok(string) => some(ValueData::StringValue(string)),
                Err(e) => Err(e),
            },
            Value::BinaryValue(b) => {
                let bytes = copy_bytes(b);
                some(ValueData::BinaryValue(bytes))
            },
            Value::TimestampValueSecond(val) => some(ValueData::TimestampSecondValue(*val)),
            Value::TimestampValueMillisecond(val) => some(
                ValueData::TimestampMillisecondValue(*val),
            ),
            Value::TimestampValueMicrosecond(val) => some(
                ValueData::TimestampMicrosecondValue(*val),
            ),
            Value::TimestampValueNanosecond(val) => some(ValueData::TimestampNanosecondValue(*val)),
            _ => Ok(ProtoValue { value_data: None }),
        }
    }
}

/// A copy of the bytes.
fn copy_bytes(b: &Vec<u8>) -> (res: Vec<u8>)
    ensures
        res@ == b@,
{
    let mut res: Vec<u8> = Vec::with_capacity(b.len());
    let mut i: usize = 0;
    while i < b.len()
        invariant
            i <= b@.len(),
            res@ == b@.take(i as int),
        decreases b@.len() - i,
    {
        res.push(b[i]);
        assert(b@.take(i + 1) =~= b@.take(i as int).push(b@[i as int]));
        i += 1;
    }
    assert(b@.take(i as int) =~= b@);
    res
}

/// Converting keeps what a value is: the wire value is null exactly when the
/// value is one of the null variants, and a non-null wire payload belongs to
/// the same column type as the value.
pub proof fn lemma_conversion_keeps_type(v: Value)
    requires
        value_outcome(v) is Ok,
    ensures
        value_outcome(v)->Ok_0 is None <==> v.is_null(),
        value_outcome(v)->Ok_0 matches Some(d) ==> value_data_type(d) == v.data_type(),
{
}

} // verus!
