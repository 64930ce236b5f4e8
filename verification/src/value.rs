//! Database values in two vocabularies, and the codec between them.
//!
//! [`Value`] is the vocabulary of the store's own connection; [`ForeignValue`]
//! is the vocabulary that the proxy exposes. The two are declared apart and
//! agree variant for variant.

use vstd::prelude::*;

verus! {

/// What a database value is, whichever vocabulary it is written in.
pub enum ValueView {
    Integer(i64),
    /// An IEEE 754 binary64 number, as its bit pattern.
    Real(u64),
    Text(Seq<char>),
    Blob(Seq<u8>),
    Null,
}

/// A value as the store's connection takes and returns it.
#[derive(Debug, PartialEq, Eq)]
pub enum Value {
    Integer(i64),
    /// An IEEE 754 binary64 number, held as its bit pattern so that the
    /// number crosses the boundary without any loss.
    Real(u64),
    Text(String),
    Blob(Vec<u8>),
    Null,
}

/// A value as the proxy's callers take and return it.
#[derive(Debug, PartialEq, Eq)]
pub enum ForeignValue {
    Integer(i64),
    /// An IEEE 754 binary64 number, held as its bit pattern.
    Real(u64),
    Text(String),
    Blob(Vec<u8>),
    Null,
}

impl View for Value {
    type V = ValueView;

    open spec fn view(&self) -> ValueView {
        match self {
            Value::Integer(i) => ValueView::Integer(*i),
            Value::Real(bits) => ValueView::Real(*bits),
            Value::Text(text) => ValueView::Text(text@),
            Value::Blob(bytes) => ValueView::Blob(bytes@),
            Value::Null => ValueView::Null,
        }
    }
}

impl View for ForeignValue {
    type V = ValueView;

    open spec fn view(&self) -> ValueView {
        match self {
            ForeignValue::Integer(i) => ValueView::Integer(*i),
            ForeignValue::Real(bits) => ValueView::Real(*bits),
            ForeignValue::Text(text) => ValueView::Text(text@),
            ForeignValue::Blob(bytes) => ValueView::Blob(bytes@),
            ForeignValue::Null => ValueView::Null,
        }
    }
}

impl Clone for Value {
    /// A copy that holds what the value holds.
    fn clone(&self) -> (out: Self)
        ensures
            out@ == self@,
    {
        match self {
            Value::Integer(i) => Value::Integer(*i),
            Value::Real(bits) => Value::Real(*bits),
            Value::Text(text) => Value::Text(text.clone()),
            Value::Blob(bytes) => Value::Blob(bytes.clone()),
            Value::Null => Value::Null,
        }
    }
}

impl Clone for ForeignValue {
    /// A copy that holds what the value holds.
    fn clone(&self) -> (out: Self)
        ensures
            out@ == self@,
    {
        match self {
            ForeignValue::Integer(i) => ForeignValue::Integer(*i),
            ForeignValue::Real(bits) => ForeignValue::Real(*bits),
            ForeignValue::Text(text) => ForeignValue::Text(text.clone()),
            ForeignValue::Blob(bytes) => ForeignValue::Blob(bytes.clone()),
            ForeignValue::Null => ForeignValue::Null,
        }
    }
}

impl Value {
    /// The same value in the foreign vocabulary.
    pub open spec fn foreign(self) -> ForeignValue {
        match self {
            Value::Integer(i) => ForeignValue::Integer(i),
            Value::Real(bits) => ForeignValue::Real(bits),
            Value::Text(text) => ForeignValue::Text(text),
            Value::Blob(bytes) => ForeignValue::Blob(bytes),
            Value::Null => ForeignValue::Null,
        }
    }

    /// Rewrites the value in the foreign vocabulary.
    pub fn to_foreign(self) -> (out: ForeignValue)
        ensures
            out == self.foreign(),
            out@ == self@,
    {
        match self {
            Value::Integer(i) => ForeignValue::Integer(i),
            Value::Real(bits) => ForeignValue::Real(bits),
            Value::Text(text) => ForeignValue::Text(text),
            Value::Blob(bytes) => ForeignValue::Blob(bytes),
            Value::Null => ForeignValue::Null,
        }
    }

    /// Rewrites a foreign value in the store's vocabulary.
    pub fn from_foreign(value: ForeignValue) -> (out: Value)
        ensures
            out == value.native(),
            out@ == value@,
    {
        match value {
            ForeignValue::Integer(i) => Value::Integer(i),
            ForeignValue::Real(bits) => Value::Real(bits),
            ForeignValue::Text(text) => Value::Text(text),
            ForeignValue::Blob(bytes) => Value::Blob(bytes),
            ForeignValue::Null => Value::Null,
        }
    }
}

impl ForeignValue {
    /// The same value in the store's vocabulary.
    pub open spec fn native(self) -> Value {
        match self {
            ForeignValue::Integer(i) => Value::Integer(i),
            ForeignValue::Real(bits) => Value::Real(bits),
            ForeignValue::Text(text) => Value::Text(text),
            ForeignValue::Blob(bytes) => Value::Blob(bytes),
            ForeignValue::Null => Value::Null,
        }
    }
}

impl From<Value> for ForeignValue {
    /// The same as [`Value::to_foreign`].
    fn from(value: Value) -> (out: ForeignValue) {
        value.to_foreign()
    }
}

impl vstd::std_specs::convert::FromSpecImpl<Value> for ForeignValue {
    open spec fn obeys_from_spec() -> bool {
        true
    }

    open spec fn from_spec(value: Value) -> ForeignValue {
        value.foreign()
    }
}

impl From<ForeignValue> for Value {
    /// The same as [`Value::from_foreign`].
    fn from(value: ForeignValue) -> (out: Value) {
        Value::from_foreign(value)
    }
}

impl vstd::std_specs::convert::FromSpecImpl<ForeignValue> for Value {
    open spec fn obeys_from_spec() -> bool {
        true
    }

    open spec fn from_spec(value: ForeignValue) -> Value {
        value.native()
    }
}

/// A value that goes to the foreign vocabulary and back is unchanged.
pub proof fn lemma_value_round_trip(value: Value)
    ensures
        value.foreign().native() == value,
        value.foreign()@ == value@,
{
}

/// A foreign value that goes to the store's vocabulary and back is unchanged.
pub proof fn lemma_foreign_value_round_trip(value: ForeignValue)
    ensures
        value.native().foreign() == value,
        value.native()@ == value@,
{
}

} // verus!
