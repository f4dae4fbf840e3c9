//! Column types and schemas, and their wire form.
use vstd::prelude::*;

use crate::error::{RustErrorView, RustResult};
use crate::proto::{ColumnSchemaView, ProtoColumnSchema};
use crate::utils::{c_string_outcome, convert_c_string};

verus! {

/// The type of a column.
#[derive(Debug, Clone, Copy, PartialEq, Eq, Structural)]
pub enum DataType {
    Boolean,
    I8,
    I16,
    I32,
    I64,
    U8,
    U16,
    U32,
    U64,
    F32,
    F64,
    Binary,
    String,
    TimestampSecond,
    TimestampMillisecond,
    TimestampMicrosecond,
    TimestampNanosecond,
}

impl DataType {
    /// The number that stands for the type on the wire.
    pub open spec fn spec_code(self) -> i32 {
        match self {
            DataType::Boolean => 0,
            DataType::I8 => 1,
            DataType::I16 => 2,
            DataType::I32 => 3,
            DataType::I64 => 4,
            DataType::U8 => 5,
            DataType::U16 => 6,
            DataType::U32 => 7,
            DataType::U64 => 8,
            DataType::F32 => 9,
            DataType::F64 => 10,
            DataType::Binary => 11,
            DataType::String => 12,
            DataType::TimestampSecond => 15,
            DataType::TimestampMillisecond => 16,
            DataType::TimestampMicrosecond => 17,
            DataType::TimestampNanosecond => 18,
        }
    }

    /// The number that stands for the type on the wire.
    pub fn code(self) -> (c: i32)
        ensures
            c == self.spec_code(),
    {
        match self {
            DataType::Boolean => 0,
            DataType::I8 => 1,
            DataType::I16 => 2,
            DataType::I32 => 3,
            DataType::I64 => 4,
            DataType::U8 => 5,
            DataType::U16 => 6,
            DataType::U32 => 7,
            DataType::U64 => 8,
            DataType::F32 => 9,
            DataType::F64 => 10,
            DataType::Binary => 11,
            DataType::String => 12,
            DataType::TimestampSecond => 15,
            DataType::TimestampMillisecond => 16,
            DataType::TimestampMicrosecond => 17,
            DataType::TimestampNanosecond => 18,
        }
    }
}

/// The role of a column in a table.
#[derive(Debug, Clone, Copy, PartialEq, Eq, Structural)]
pub enum SemanticType {
    Tag,
    Field,
    Timestamp,
}

impl SemanticType {
    /// The number that stands for the role on the wire.
    pub open spec fn spec_code(self) -> i32 {
        match self {
            SemanticType::Tag => 0,
            SemanticType::Field => 1,
            SemanticType::Timestamp => 2,
        }
    }

    /// The number that stands for the role on the wire.
    pub fn code(self) -> (c: i32)
        ensures
            c == self.spec_code(),
    {
        match self {
            SemanticType::Tag => 0,
            SemanticType::Field => 1,
            SemanticType::Timestamp => 2,
        }
    }
}

/// Distinct column types, and distinct column roles, have distinct wire codes.
pub proof fn lemma_codes_are_distinct(a: DataType, b: DataType, s: SemanticType, t: SemanticType)
    ensures
        a.spec_code() == b.spec_code() ==> a == b,
        s.spec_code() == t.spec_code() ==> s == t,
{
}

/// The wire code of each column type is GreptimeDB's number for it, and that
/// of each role likewise.
pub proof fn lemma_wire_codes()
    ensures
        DataType::Boolean.spec_code() == 0,
        DataType::I8.spec_code() == 1,
        DataType::I16.spec_code() == 2,
        DataType::I32.spec_code() == 3,
        DataType::I64.spec_code() == 4,
        DataType::U8.spec_code() == 5,
        DataType::U16.spec_code() == 6,
        DataType::U32.spec_code() == 7,
        DataType::U64.spec_code() == 8,
        DataType::F32.spec_code() == 9,
        DataType::F64.spec_code() == 10,
        DataType::Binary.spec_code() == 11,
        DataType::String.spec_code() == 12,
        DataType::TimestampSecond.spec_code() == 15,
        DataType::TimestampMillisecond.spec_code() == 16,
        DataType::TimestampMicrosecond.spec_code() == 17,
        DataType::TimestampNanosecond.spec_code() == 18,
        SemanticType::Tag.spec_code() == 0,
        SemanticType::Field.spec_code() == 1,
        SemanticType::Timestamp.spec_code() == 2,
{
}

/// The schema of a column as a C caller gives it; the name is given by its
/// bytes, `None` for a null pointer.
#[derive(Debug)]
pub struct ColumnSchema {
    pub name: Option<Vec<u8>>,
    pub data_type: DataType,
    pub semantic_type: SemanticType,
}

/// The bytes of the column's name, `None` for a null pointer.
pub open spec fn name_bytes(c: ColumnSchema) -> Option<Seq<u8>> {
    match c.name {
        Some(n) => Some(n@),
        None => None,
    }
}

/// What converting a column schema gives: the error of its name, or the
/// decoded name with the wire codes of its type and role.
pub open spec fn column_schema_outcome(c: ColumnSchema) -> Result<ColumnSchemaView, RustErrorView> {
    match c_string_outcome(name_bytes(c)) {
        Ok(name) => Ok(
            ColumnSchemaView {
                column_name: name,
                datatype: c.data_type.spec_code(),
                semantic_type: c.semantic_type.spec_code(),
            },
        ),
        Err(e) => Err(e),
    }
}

/// A column-schema result taken by views.
pub open spec fn schema_result_view(r: RustResult<ProtoColumnSchema>) -> Result<
    ColumnSchemaView,
    RustErrorView,
> {
    match r {
        Ok(c) => Ok(c@),
        Err(e) => Err(e@),
    }
}

/// A column schema converts exactly when its name does, and then carries the
/// converted name and the wire codes of its own type and role.
pub proof fn lemma_column_schema_keeps_codes(c: ColumnSchema)
    ensures
        column_schema_outcome(c) is Ok <==> c_string_outcome(name_bytes(c)) is Ok,
        column_schema_outcome(c) matches Ok(v) ==> {
            &&& Ok::<Seq<char>, RustErrorView>(v.column_name) == c_string_outcome(name_bytes(c))
            &&& v.datatype == c.data_type.spec_code()
            &&& v.semantic_type == c.semantic_type.spec_code()
        },
        column_schema_outcome(c) matches Err(e) ==> c_string_outcome(name_bytes(c)) == Err::<
            Seq<char>,
            RustErrorView,
        >(e),
{
}

impl ProtoColumnSchema {
    /// The wire schema of a column: its name decoded, its type and role by
    /// their wire codes.
    pub fn try_from(val: &ColumnSchema) -> (res: RustResult<ProtoColumnSchema>)
        ensures
            schema_result_view(res) == column_schema_outcome(*val),
            res matches Ok(p) ==> p.datatype == val.data_type.spec_code() && p.semantic_type
                == val.semantic_type.spec_code(),
    {
        let name = match &val.name {
            Some(n) => convert_c_string(Some(n.as_slice())),
            None => convert_c_string(None),
        };
        match name {
            Ok(column_name) => Ok(
                ProtoColumnSchema {
                    column_name,
                    datatype: val.data_type.code(),
                    semantic_type: val.semantic_type.code(),
                },
            ),
            Err(e) => Err(e),
        }
    }
}

} // verus!
