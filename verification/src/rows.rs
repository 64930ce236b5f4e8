//! Rows and query results in two vocabularies, and the rewriting of one
//! into the other.
//!
//! The order of the columns is the authority: the value of a row under a
//! column stands at the column's position. Looking a column up by its name is
//! a second way in, and it can fail.

use vstd::prelude::*;
use crate::value::{ForeignValue, Value, ValueView};

verus! {

/// What a sequence of values holds, whichever vocabulary they are written in.
pub open spec fn values_view(values: Seq<Value>) -> Seq<ValueView> {
    values.map_values(|value: Value| value@)
}

/// What a sequence of foreign values holds.
pub open spec fn foreign_values_view(values: Seq<ForeignValue>) -> Seq<ValueView> {
    values.map_values(|value: ForeignValue| value@)
}

/// What a sequence of column names holds.
pub open spec fn names_view(names: Seq<String>) -> Seq<Seq<char>> {
    names.map_values(|name: String| name@)
}

/// What a query result holds: the names of its columns and, row by row, the
/// values.
pub struct QueryResultView {
    pub columns: Seq<Seq<char>>,
    pub rows: Seq<Seq<ValueView>>,
}

/// The values of one row, in the order of the columns.
#[derive(Debug, PartialEq, Eq)]
pub struct RowResult {
    pub values: Vec<Value>,
}

/// The answer of the store to one statement.
#[derive(Debug, PartialEq, Eq)]
pub struct QueryResult {
    pub columns: Vec<String>,
    pub rows: Vec<RowResult>,
}

/// The values of one row, in the foreign vocabulary.
#[derive(Debug, PartialEq, Eq)]
pub struct ForeignRowResult {
    pub values: Vec<ForeignValue>,
}

/// The answer to one statement, in the foreign vocabulary.
#[derive(Debug, PartialEq, Eq)]
pub struct ForeignQueryResult {
    pub columns: Vec<String>,
    pub rows: Vec<ForeignRowResult>,
}

impl View for RowResult {
    type V = Seq<ValueView>;

    open spec fn view(&self) -> Seq<ValueView> {
        values_view(self.values@)
    }
}

impl View for ForeignRowResult {
    type V = Seq<ValueView>;

    open spec fn view(&self) -> Seq<ValueView> {
        foreign_values_view(self.values@)
    }
}

impl View for QueryResult {
    type V = QueryResultView;

    open spec fn view(&self) -> QueryResultView {
        QueryResultView {
            columns: names_view(self.columns@),
            rows: self.rows@.map_values(|row: RowResult| row@),
        }
    }
}

impl View for ForeignQueryResult {
    type V = QueryResultView;

    open spec fn view(&self) -> QueryResultView {
        QueryResultView {
            columns: names_view(self.columns@),
            rows: self.rows@.map_values(|row: ForeignRowResult| row@),
        }
    }
}

/// Rewrites every value of `values` in the foreign vocabulary, in order.
pub fn values_to_foreign(values: Vec<Value>) -> (out: Vec<ForeignValue>)
    ensures
        out@ == values@.map_values(|value: Value| value.foreign()),
        foreign_values_view(out@) == values_view(values@),
{
    let mut out: Vec<ForeignValue> = Vec::new();
    let ghost all = values@;
    for value in it: values
        invariant
            it.seq() == all,
            out@ == all.take(it.index() as int).map_values(|value: Value| value.foreign()),
    {
        out.push(value.to_foreign());
    }
    assert(foreign_values_view(out@) =~= values_view(all));
    out
}

/// Rewrites every value of `values` in the store's vocabulary, in order.
pub fn values_from_foreign(values: Vec<ForeignValue>) -> (out: Vec<Value>)
    ensures
        out@ == values@.map_values(|value: ForeignValue| value.native()),
        values_view(out@) == foreign_values_view(values@),
{
    let mut out: Vec<Value> = Vec::new();
    let ghost all = values@;
    for value in it: values
        invariant
            it.seq() == all,
            out@ == all.take(it.index() as int).map_values(|value: ForeignValue| value.native()),
    {
        out.push(Value::from_foreign(value));
    }
    assert(values_view(out@) =~= foreign_values_view(all));
    out
}

/// Values that go to the store's vocabulary and back are unchanged, each in
/// its place; and so are values that go the other way.
pub proof fn lemma_values_round_trip(foreign: Seq<ForeignValue>, native: Seq<Value>)
    ensures
        foreign.map_values(|value: ForeignValue| value.native()).map_values(
            |value: Value| value.foreign(),
        ) == foreign,
        native.map_values(|value: Value| value.foreign()).map_values(
            |value: ForeignValue| value.native(),
        ) == native,
        values_view(foreign.map_values(|value: ForeignValue| value.native()))
            == foreign_values_view(foreign),
        foreign_values_view(native.map_values(|value: Value| value.foreign())) == values_view(
            native,
        ),
{
    assert(foreign.map_values(|value: ForeignValue| value.native()).map_values(
        |value: Value| value.foreign(),
    ) =~= foreign);
    assert(native.map_values(|value: Value| value.foreign()).map_values(
        |value: ForeignValue| value.native(),
    ) =~= native);
    assert(values_view(foreign.map_values(|value: ForeignValue| value.native()))
        =~= foreign_values_view(foreign));
    assert(foreign_values_view(native.map_values(|value: Value| value.foreign())) =~= values_view(
        native,
    ));
}

impl RowResult {
    /// Rewrites the row in the foreign vocabulary: the same values in the
    /// same order.
    pub fn to_foreign(self) -> (out: ForeignRowResult)
        ensures
            out@ == self@,
            out.values@ == self.values@.map_values(|value: Value| value.foreign()),
    {
        ForeignRowResult { values: values_to_foreign(self.values) }
    }

    /// Rewrites a foreign row in the store's vocabulary.
    pub fn from_foreign(row: ForeignRowResult) -> (out: RowResult)
        ensures
            out@ == row@,
            out.values@ == row.values@.map_values(|value: ForeignValue| value.native()),
    {
        RowResult { values: values_from_foreign(row.values) }
    }
}

impl QueryResult {
    /// Rewrites the result in the foreign vocabulary: the same column names,
    /// and every row with the same values, all in the same order.
    pub fn to_foreign(self) -> (out: ForeignQueryResult)
        ensures
            out@ == self@,
            out.columns == self.columns,
    {
        let QueryResult { columns, rows } = self;
        let mut out: Vec<ForeignRowResult> = Vec::new();
        let ghost all = rows@;
        for row in it: rows
            invariant
                it.seq() == all,
                out@.len() == it.index(),
                forall|j: int| 0 <= j < out@.len() ==> (#[trigger] out@[j])@ == all[j]@,
        {
            out.push(row.to_foreign());
        }
        assert(out@.map_values(|row: ForeignRowResult| row@) =~= all.map_values(
            |row: RowResult| row@,
        ));
        ForeignQueryResult { columns, rows: out }
    }

    /// Rewrites a foreign result in the store's vocabulary.
    pub fn from_foreign(result: ForeignQueryResult) -> (out: QueryResult)
        ensures
            out@ == result@,
            out.columns == result.columns,
    {
        let ForeignQueryResult { columns, rows } = result;
        let mut out: Vec<RowResult> = Vec::new();
        let ghost all = rows@;
        for row in it: rows
            invariant
                it.seq() == all,
                out@.len() == it.index(),
                forall|j: int| 0 <= j < out@.len() ==> (#[trigger] out@[j])@ == all[j]@,
        {
            out.push(RowResult::from_foreign(row));
        }
        assert(out@.map_values(|row: RowResult| row@) =~= all.map_values(
            |row: ForeignRowResult| row@,
        ));
        QueryResult { columns, rows: out }
    }
}

} // verus!
