//! The GreptimeDB wire messages that the interface builds, held as plain
//! values: a request is assembled here and handed to the transport as is.
use vstd::prelude::*;

verus! {

/// The payload of a wire value. A float is held by its IEEE-754 bits.
#[derive(Debug, PartialEq)]
pub enum ValueData {
    I8Value(i32),
    I16Value(i32),
    I32Value(i32),
    I64Value(i64),
    U8Value(u32),
    U16Value(u32),
    U32Value(u32),
    U64Value(u64),
    F32Value(u32),
    F64Value(u64),
    BoolValue(bool),
    BinaryValue(Vec<u8>),
    StringValue(String),
    TimestampSecondValue(i64),
    TimestampMillisecondValue(i64),
    TimestampMicrosecondValue(i64),
    TimestampNanosecondValue(i64),
}

/// A [`ValueData`] with its string taken as characters and its binary as bytes.
pub enum ValueDataView {
    I8Value(i32),
    I16Value(i32),
    I32Value(i32),
    I64Value(i64),
    U8Value(u32),
    U16Value(u32),
    U32Value(u32),
    U64Value(u64),
    F32Value(u32),
    F64Value(u64),
    BoolValue(bool),
    BinaryValue(Seq<u8>),
    StringValue(Seq<char>),
    TimestampSecondValue(i64),
    TimestampMillisecondValue(i64),
    TimestampMicrosecondValue(i64),
    TimestampNanosecondValue(i64),
}

impl View for ValueData {
    type V = ValueDataView;

    open spec fn view(&self) -> ValueDataView {
        match self {
            ValueData::I8Value(v) => ValueDataView::I8Value(*v),
            ValueData::I16Value(v) => ValueDataView::I16Value(*v),
            ValueData::I32Value(v) => ValueDataView::I32Value(*v),
            ValueData::I64Value(v) => ValueDataView::I64Value(*v),
            ValueData::U8Value(v) => ValueDataView::U8Value(*v),
            ValueData::U16Value(v) => ValueDataView::U16Value(*v),
            ValueData::U32Value(v) => ValueDataView::U32Value(*v),
            ValueData::U64Value(v) => ValueDataView::U64Value(*v),
            ValueData::F32Value(v) => ValueDataView::F32Value(*v),
            ValueData::F64Value(v) => ValueDataView::F64Value(*v),
            ValueData::BoolValue(v) => ValueDataView::BoolValue(*v),
            ValueData::BinaryValue(v) => ValueDataView::BinaryValue(v@),
            ValueData::StringValue(v) => ValueDataView::StringValue(v@),
            ValueData::TimestampSecondValue(v) => ValueDataView::TimestampSecondValue(*v),
            ValueData::TimestampMillisecondValue(v) => ValueDataView::TimestampMillisecondValue(*v),
            ValueData::TimestampMicrosecondValue(v) => ValueDataView::TimestampMicrosecondValue(*v),
            ValueData::TimestampNanosecondValue(v) => ValueDataView::TimestampNanosecondValue(*v),
        }
    }
}

/// A wire value taken by its payload's view; `None` is a null.
pub type ValueView = Option<ValueDataView>;

/// A wire value; `None` is a null.
#[derive(Debug, PartialEq)]
pub struct ProtoValue {
    pub value_data: Option<ValueData>,
}

impl View for ProtoValue {
    type V = ValueView;

    open spec fn view(&self) -> ValueView {
        match self.value_data {
            Some(d) => Some(d@),
            None => None,
        }
    }
}

/// The views of a sequence of wire values.
pub open spec fn values_view(values: Seq<ProtoValue>) -> Seq<ValueView> {
    values.map_values(|v: ProtoValue| v@)
}

/// The schema of one column on the wire.
#[derive(Debug, PartialEq)]
pub struct ProtoColumnSchema {
    pub column_name: String,
    pub datatype: i32,
    pub semantic_type: i32,
}

/// A [`ProtoColumnSchema`] with its name taken as characters.
pub struct ColumnSchemaView {
    pub column_name: Seq<char>,
    pub datatype: i32,
    pub semantic_type: i32,
}

impl View for ProtoColumnSchema {
    type V = ColumnSchemaView;

    open spec fn view(&self) -> ColumnSchemaView {
        ColumnSchemaView {
            column_name: self.column_name@,
            datatype: self.datatype,
            semantic_type: self.semantic_type,
        }
    }
}

/// One row on the wire.
#[derive(Debug, PartialEq)]
pub struct ProtoRow {
    pub values: Vec<ProtoValue>,
}

impl View for ProtoRow {
    type V = Seq<ValueView>;

    open spec fn view(&self) -> Seq<ValueView> {
        values_view(self.values@)
    }
}

/// The views of a sequence of column schemas.
pub open spec fn schemas_view(schemas: Seq<ProtoColumnSchema>) -> Seq<ColumnSchemaView> {
    schemas.map_values(|c: ProtoColumnSchema| c@)
}

/// The views of a sequence of rows.
pub open spec fn rows_view(rows: Seq<ProtoRow>) -> Seq<Seq<ValueView>> {
    rows.map_values(|r: ProtoRow| r@)
}

/// Rows together with the schema of their columns.
#[derive(Debug, PartialEq)]
pub struct ProtoRows {
    pub schema: Vec<ProtoColumnSchema>,
    pub rows: Vec<ProtoRow>,
}

/// A [`ProtoRows`] taken by the views of its parts.
pub struct RowsView {
    pub schema: Seq<ColumnSchemaView>,
    pub rows: Seq<Seq<ValueView>>,
}

impl View for ProtoRows {
    type V = RowsView;

    open spec fn view(&self) -> RowsView {
        RowsView { schema: schemas_view(self.schema@), rows: rows_view(self.rows@) }
    }
}

/// A request to insert rows into one table.
#[derive(Debug, PartialEq)]
pub struct RowInsertRequest {
    pub table_name: String,
    pub rows: Option<ProtoRows>,
}

/// A [`RowInsertRequest`] taken by the views of its parts.
pub struct InsertView {
    pub table_name: Seq<char>,
    pub rows: Option<RowsView>,
}

impl View for RowInsertRequest {
    type V = InsertView;

    open spec fn view(&self) -> InsertView {
        InsertView {
            table_name: self.table_name@,
            rows: match self.rows {
                Some(r) => Some(r@),
                None => None,
            },
        }
    }
}

/// Several insert requests sent together.
#[derive(Debug, PartialEq)]
pub struct RowInsertRequests {
    pub inserts: Vec<RowInsertRequest>,
}

impl View for RowInsertRequests {
    type V = Seq<InsertView>;

    open spec fn view(&self) -> Seq<InsertView> {
        self.inserts@.map_values(|r: RowInsertRequest| r@)
    }
}

} // verus!
