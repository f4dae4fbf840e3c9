//! Row batches: the rows a C caller collects for one table before inserting
//! them, and the insert requests built from them.
use vstd::prelude::*;

use crate::error::{RustErrorView, RustResult};
use crate::outcome::{first_error_or_all, lemma_error_persists, lemma_first_error_or_all_pointwise};
use crate::proto::{
    ColumnSchemaView, InsertView, ProtoColumnSchema, ProtoRow, ProtoRows, ProtoValue,
    RowInsertRequest, RowInsertRequests, RowsView, ValueView, rows_view, schemas_view, values_view,
};
use crate::schema::{ColumnSchema, column_schema_outcome};
use crate::utils::{c_bytes, c_string_outcome, convert_c_string, ensure_not_null};
use crate::value::{Value, value_outcome};

verus! {

/// A batch taken by its table name, the wire schemas of its columns and the
/// wire rows pushed so far.
pub struct BatchView {
    pub table_name: Seq<char>,
    pub column_schemas: Seq<ColumnSchemaView>,
    pub rows: Seq<Seq<ValueView>>,
}

struct Inner {
    table_name: String,
    column_schemas: Vec<ProtoColumnSchema>,
    rows: Vec<ProtoRow>,
}

/// The data to be inserted into one table. Once its insert request has been
/// taken, the batch is spent and holds nothing.
pub struct RowBatch {
    inner: Option<Inner>,
}

impl View for RowBatch {
    /// `None` for a spent batch.
    type V = Option<BatchView>;

    closed spec fn view(&self) -> Option<BatchView> {
        match self.inner {
            Some(inner) => Some(
                BatchView {
                    table_name: inner.table_name@,
                    column_schemas: schemas_view(inner.column_schemas@),
                    rows: rows_view(inner.rows@),
                },
            ),
            None => None,
        }
    }
}

/// What converting a sequence of column schemas gives: the error of the first
/// one that fails, else the wire schemas in order.
pub open spec fn column_schemas_outcome(cs: Seq<ColumnSchema>) -> Result<
    Seq<ColumnSchemaView>,
    RustErrorView,
> {
    first_error_or_all(cs, |c: ColumnSchema| column_schema_outcome(c))
}

/// What converting a row of values gives: the error of the first value that
/// fails, else the wire row.
pub open spec fn row_outcome(values: Seq<Value>) -> Result<Seq<ValueView>, RustErrorView> {
    first_error_or_all(values, |v: Value| value_outcome(v))
}

/// What creating a batch gives: the error of the table name, else the error
/// of the column schemas, else an empty batch for the table.
pub open spec fn new_batch_outcome(table_name: Option<Seq<u8>>, cs: Seq<ColumnSchema>) -> Result<
    BatchView,
    RustErrorView,
> {
    match c_string_outcome(table_name) {
        Err(e) => Err(e),
        Ok(name) => match column_schemas_outcome(cs) {
            Err(e) => Err(e),
            Ok(schemas) => Ok(BatchView { table_name: name, column_schemas: schemas, rows: seq![] }),
        },
    }
}

/// The batch `b` after the wire row `row` has been pushed.
pub open spec fn pushed(b: BatchView, row: Seq<ValueView>) -> BatchView {
    BatchView { table_name: b.table_name, column_schemas: b.column_schemas, rows: b.rows.push(row) }
}

/// The batch `b` after each of the wire rows `rows` has been pushed, in order.
pub open spec fn push_all(b: BatchView, rows: Seq<Seq<ValueView>>) -> BatchView
    decreases rows.len(),
{
    if rows.len() == 0 {
        b
    } else {
        pushed(push_all(b, rows.drop_last()), rows.last())
    }
}

/// The insert request that carries the batch `b`.
pub open spec fn insert_of(b: BatchView) -> InsertView {
    InsertView {
        table_name: b.table_name,
        rows: Some(RowsView { schema: b.column_schemas, rows: b.rows }),
    }
}

/// Converting column schemas succeeds exactly when every schema converts,
/// and then gives each schema's wire form at its own position.
pub proof fn lemma_schemas_convert_pointwise(cs: Seq<ColumnSchema>)
    ensures
        column_schemas_outcome(cs) is Ok <==> forall|i: int|
            0 <= i < cs.len() ==> (#[trigger] column_schema_outcome(cs[i])) is Ok,
        column_schemas_outcome(cs) matches Ok(v) ==> v.len() == cs.len() && forall|i: int|
            0 <= i < cs.len() ==> Ok::<ColumnSchemaView, RustErrorView>(#[trigger] v[i])
                == column_schema_outcome(cs[i]),
{
    let f = |x: ColumnSchema| column_schema_outcome(x);
    lemma_first_error_or_all_pointwise(cs, f);
    assert forall|i: int| 0 <= i < cs.len() implies f(cs[i]) == column_schema_outcome(cs[i]) by {}
    if column_schemas_outcome(cs) is Ok {
        assert forall|i: int| 0 <= i < cs.len() implies (#[trigger] column_schema_outcome(cs[i])) is Ok by {
            assert(f(cs[i]) is Ok);
        }
    } else {
        if forall|i: int| 0 <= i < cs.len() ==> (#[trigger] column_schema_outcome(cs[i])) is Ok {
            assert forall|i: int| 0 <= i < cs.len() implies (#[trigger] f(cs[i])) is Ok by {
                assert(column_schema_outcome(cs[i]) is Ok);
            }
        }
    }
}

/// Converting a row succeeds exactly when every value converts, and then
/// gives each value's wire form at its own position.
pub proof fn lemma_row_converts_pointwise(values: Seq<Value>)
    ensures
        row_outcome(values) is Ok <==> forall|i: int|
            0 <= i < values.len() ==> (#[trigger] value_outcome(values[i])) is Ok,
        row_outcome(values) matches Ok(r) ==> r.len() == values.len() && forall|i: int|
            0 <= i < values.len() ==> Ok::<ValueView, RustErrorView>(#[trigger] r[i])
                == value_outcome(values[i]),
{
    let f = |x: Value| value_outcome(x);
    lemma_first_error_or_all_pointwise(values, f);
    assert forall|i: int| 0 <= i < values.len() implies f(values[i]) == value_outcome(values[i]) by {}
    if row_outcome(values) is Ok {
        assert forall|i: int| 0 <= i < values.len() implies (#[trigger] value_outcome(values[i])) is Ok by {
            assert(f(values[i]) is Ok);
        }
    } else {
        if forall|i: int| 0 <= i < values.len() ==> (#[trigger] value_outcome(values[i])) is Ok {
            assert forall|i: int| 0 <= i < values.len() implies (#[trigger] f(values[i])) is Ok by {
                assert(value_outcome(values[i]) is Ok);
            }
        }
    }
}

/// Converts column schemas in order, stopping at the first that fails.
pub fn convert_column_schemas(schemas: &[ColumnSchema]) -> (res: RustResult<Vec<ProtoColumnSchema>>)
    ensures
        match res {
            Ok(out) => column_schemas_outcome(schemas@) == Ok::<Seq<ColumnSchemaView>, RustErrorView>(schemas_view(out@)),
            Err(e) => column_schemas_outcome(schemas@) == Err::<Seq<ColumnSchemaView>, RustErrorView>(e@),
        },
{
    let mut out: Vec<ProtoColumnSchema> = Vec::new();
    let mut i: usize = 0;
    assert(schemas@.take(0) =~= Seq::<ColumnSchema>::empty());
    assert(schemas_view(out@) =~= Seq::<ColumnSchemaView>::empty());
    while i < schemas.len()
        invariant
            i <= schemas@.len(),
            column_schemas_outcome(schemas@.take(i as int)) == Ok::<Seq<ColumnSchemaView>, RustErrorView>(schemas_view(out@)),
        decreases schemas@.len() - i,
    {
        let converted = ProtoColumnSchema::try_from(&schemas[i]);
        assert(schemas@.take(i + 1).drop_last() =~= schemas@.take(i as int));
        assert(schemas@.take(i + 1).last() == schemas@[i as int]);
        match converted {
            Ok(c) => {
                let ghost before = out@;
                out.push(c);
                assert(schemas_view(out@) =~= schemas_view(before).push(c@));
            },
            Err(e) => {
                proof {
                    lemma_error_persists(schemas@, |c: ColumnSchema| column_schema_outcome(c), i + 1);
                }
                return Err(e);
            },
        }
        i += 1;
    }
    assert(schemas@.take(i as int) =~= schemas@);
    Ok(out)
}

/// Converts a row of values in order, stopping at the first that fails.
pub fn convert_row(values: &[Value]) -> (res: RustResult<ProtoRow>)
    ensures
        match res {
            Ok(r) => row_outcome(values@) == Ok::<Seq<ValueView>, RustErrorView>(r@),
            Err(e) => row_outcome(values@) == Err::<Seq<ValueView>, RustErrorView>(e@),
        },
{
    let mut out: Vec<ProtoValue> = Vec::new();
    let mut i: usize = 0;
    assert(values@.take(0) =~= Seq::<Value>::empty());
    assert(values_view(out@) =~= Seq::<ValueView>::empty());
    while i < values.len()
        invariant
            i <= values@.len(),
            row_outcome(values@.take(i as int)) == Ok::<Seq<ValueView>, RustErrorView>(values_view(out@)),
        decreases values@.len() - i,
    {
        let converted = values[i].to_proto();
        assert(values@.take(i + 1).drop_last() =~= values@.take(i as int));
        assert(values@.take(i + 1).last() == values@[i as int]);
        match converted {
            Ok(v) => {
                let ghost before = out@;
                out.push(v);
                assert(values_view(out@) =~= values_view(before).push(v@));
            },
            Err(e) => {
                proof {
                    lemma_error_persists(values@, |v: Value| value_outcome(v), i + 1);
                }
                return Err(e);
            },
        }
        i += 1;
    }
    assert(values@.take(i as int) =~= values@);
    Ok(ProtoRow { values: out })
}

/// The checks of the pointers handed over to create a batch, in the order
/// made: the batch pointer, then the column-schema pointer.
pub fn check_new_batch_pointers(row_batch_present: bool, column_schemas_present: bool) -> (res:
    RustResult<()>)
    ensures
        res is Ok <==> row_batch_present && column_schemas_present,
        !row_batch_present ==> (res matches Err(e) && e@ == RustErrorView::NullPointer(
            "row_batch_ptr"@,
        )),
        row_batch_present && !column_schemas_present ==> (res matches Err(e) && e@
            == RustErrorView::NullPointer("column_schema_ptr"@)),
{
    match ensure_not_null(row_batch_present, "row_batch_ptr") {
        Ok(()) => ensure_not_null(column_schemas_present, "column_schema_ptr"),
        Err(e) => Err(e),
    }
}

impl RowBatch {
    /// Whether the batch is spent: its insert request has been taken.
    pub fn is_spent(&self) -> (r: bool)
        ensures
            r == (self@ is None),
    {
        self.inner.is_none()
    }

    /// A new batch for the table named by the C string `table_name`, with the
    /// given column schemas and room for `capacity` rows. Fails when the table
    /// name cannot be converted, then when a column schema cannot.
    pub fn new_with_capacity(
        table_name: Option<&[u8]>,
        capacity: usize,
        column_schemas: &[ColumnSchema],
    ) -> (res: RustResult<RowBatch>)
        ensures
            match res {
                Ok(b) => b@ is Some && new_batch_outcome(c_bytes(table_name), column_schemas@)
                    == Ok::<BatchView, RustErrorView>(b@.unwrap()),
                Err(e) => new_batch_outcome(c_bytes(table_name), column_schemas@) == Err::<
                    BatchView,
                    RustErrorView,
                >(e@),
            },
            res matches Ok(b) ==> {
                &&& b@->Some_0.rows.len() == 0
                &&& b@->Some_0.column_schemas.len() == column_schemas@.len()
                &&& forall|i: int|
                    0 <= i < column_schemas@.len() ==> Ok::<ColumnSchemaView, RustErrorView>(
                        #[trigger] b@->Some_0.column_schemas[i],
                    ) == column_schema_outcome(column_schemas@[i])
            },
    {
        proof {
            lemma_new_batch_keeps_schemas_in_order(c_bytes(table_name), column_schemas@);
        }
        let table_name = match convert_c_string(table_name) {
            Ok(t) => t,
            Err(e) => return Err(e),
        };
        let column_schemas = match convert_column_schemas(column_schemas) {
            Ok(c) => c,
            Err(e) => return Err(e),
        };
        let rows: Vec<ProtoRow> = Vec::with_capacity(capacity);
        assert(rows_view(rows@) =~= Seq::<Seq<ValueView>>::empty());
        Ok(RowBatch { inner: Some(Inner { table_name, column_schemas, rows }) })
    }

    /// Converts a row of values and pushes it. There is no check against the
    /// schema: the values must match it. When a value cannot be converted,
    /// the batch is left as it was and the error of the first such value is
    /// returned. Pushing a convertible row into a spent batch is not allowed.
    pub fn push_row(&mut self, values: &[Value]) -> (res: RustResult<()>)
        requires
            old(self)@ is Some || row_outcome(values@) is Err,
        ensures
            match row_outcome(values@) {
                Ok(row) => res is Ok && final(self)@ == Some(pushed(old(self)@.unwrap(), row)),
                Err(e) => res matches Err(x) && x@ == e && final(self)@ == old(self)@,
            },
    {
        let row = match convert_row(values) {
            Ok(r) => r,
            Err(e) => return Err(e),
        };
        match self.inner.take() {
            Some(mut inner) => {
                let ghost before = inner.rows@;
                let ghost row_view = row@;
                inner.rows.push(row);
                assert(rows_view(inner.rows@) =~= rows_view(before).push(row_view));
                self.inner = Some(inner);
            },
            None => {},
        }
        Ok(())
    }

    /// Takes the batch's rows, as the single insert request that is sent for
    /// it, and leaves the batch spent. The batch must not be spent already.
    pub fn take_insert_requests(&mut self) -> (res: RowInsertRequests)
        requires
            old(self)@ is Some,
        ensures
            final(self)@ is None,
            res@ == seq![insert_of(old(self)@.unwrap())],
    {
        match self.inner.take() {
            Some(inner) => {
                let insert = Self::request_of(inner);
                let inserts = vec![insert];
                let res = RowInsertRequests { inserts };
                assert(res@ =~= seq![insert@]);
                res
            },
            None => RowInsertRequests { inserts: Vec::new() },
        }
    }

    /// The insert request that carries the batch. The batch must not be spent.
    pub fn into_insert_request(self) -> (res: RowInsertRequest)
        requires
            self@ is Some,
        ensures
            res@ == insert_of(self@.unwrap()),
    {
        match self.inner {
            Some(inner) => Self::request_of(inner),
            None => RowInsertRequest { table_name: String::new(), rows: None },
        }
    }

    fn request_of(inner: Inner) -> (res: RowInsertRequest)
        ensures
            res@ == insert_of(
                BatchView {
                    table_name: inner.table_name@,
                    column_schemas: schemas_view(inner.column_schemas@),
                    rows: rows_view(inner.rows@),
                },
            ),
    {
        let Inner { table_name, column_schemas, rows } = inner;
        RowInsertRequest { table_name, rows: Some(ProtoRows { schema: column_schemas, rows }) }
    }
}

/// Creating a batch succeeds exactly when the table name and every column
/// schema convert; the batch then has the converted table name, no rows, and
/// at each position the wire form of the column schema given there.
pub proof fn lemma_new_batch_keeps_schemas_in_order(
    table_name: Option<Seq<u8>>,
    cs: Seq<ColumnSchema>,
)
    ensures
        new_batch_outcome(table_name, cs) is Ok <==> c_string_outcome(table_name) is Ok && forall|
            i: int,
        | 0 <= i < cs.len() ==> (#[trigger] column_schema_outcome(cs[i])) is Ok,
        new_batch_outcome(table_name, cs) matches Ok(b) ==> {
            &&& Ok::<Seq<char>, RustErrorView>(b.table_name) == c_string_outcome(table_name)
            &&& b.rows.len() == 0
            &&& b.column_schemas.len() == cs.len()
            &&& forall|i: int|
                0 <= i < cs.len() ==> Ok::<ColumnSchemaView, RustErrorView>(
                    #[trigger] b.column_schemas[i],
                ) == column_schema_outcome(cs[i])
        },
{
    lemma_schemas_convert_pointwise(cs);
}

/// The insert request of a batch carries, in the order pushed, every row
/// pushed into it, under the batch's table name and column schemas.
pub proof fn lemma_request_holds_every_pushed_row(b: BatchView, rows: Seq<Seq<ValueView>>)
    ensures
        insert_of(push_all(b, rows)) == (InsertView {
            table_name: b.table_name,
            rows: Some(RowsView { schema: b.column_schemas, rows: b.rows + rows }),
        }),
    decreases rows.len(),
{
    if rows.len() == 0 {
        assert(b.rows + rows =~= b.rows);
    } else {
        lemma_request_holds_every_pushed_row(b, rows.drop_last());
        assert(b.rows + rows =~= (b.rows + rows.drop_last()).push(rows.last()));
    }
}

} // verus!
