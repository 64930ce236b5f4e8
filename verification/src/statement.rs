//! Statements as they are handed to a connection.

use vstd::prelude::*;
use crate::rows::values_view;
use crate::value::{Value, ValueView};

verus! {

/// What a statement holds.
pub struct StatementView {
    pub text: Seq<char>,
    pub parameters: Seq<ValueView>,
}

/// A statement with positional `?` placeholders, and the values to bind to
/// them, in the order of the placeholders.
#[derive(Debug, PartialEq, Eq)]
pub struct Statement {
    pub text: String,
    pub parameters: Vec<Value>,
}

impl View for Statement {
    type V = StatementView;

    open spec fn view(&self) -> StatementView {
        StatementView { text: self.text@, parameters: values_view(self.parameters@) }
    }
}

} // verus!
