//! The proxy adapter: one connection offered in the foreign vocabulary.
//!
//! The proxy keeps nothing but the handle of the connection that it wraps,
//! and it does not reach the store itself. Whoever drives it says how the
//! underlying connection is opened and how a statement is executed on it;
//! the proxy says what is executed and what is answered, and alters neither
//! the text of a statement nor the order of its parameters.

use vstd::prelude::*;
use crate::error::{ForeignError, StoreError};
use crate::statement::Statement;
use crate::rows::{foreign_values_view, values_from_foreign, ForeignQueryResult, QueryResult};
use crate::value::ForeignValue;

verus! {

/// A connection of type `C`, wrapped to be offered in the foreign
/// vocabulary.
pub struct ProxyConnection<C>(pub C);

/// Rewrites the outcome of a statement in the foreign vocabulary: a result
/// with the same column names and the same values in every row, or the same
/// failure.
pub fn outcome_to_foreign(outcome: Result<QueryResult, StoreError>) -> (out: Result<
    ForeignQueryResult,
    ForeignError,
>)
    ensures
        answers(outcome, out),
{
    match outcome {
        Ok(result) => Ok(result.to_foreign()),
        Err(failure) => Err(failure.to_foreign()),
    }
}

/// The statement that the proxy hands on for a caller's statement: the
/// caller's text, unchanged, and the caller's parameters, each rewritten in
/// the store's vocabulary, in the caller's order.
pub fn request(statement: String, parameters: Vec<ForeignValue>) -> (out: Statement)
    ensures
        out.text == statement,
        out.parameters@ == parameters@.map_values(|value: ForeignValue| value.native()),
        out@.parameters == foreign_values_view(parameters@),
{
    Statement { text: statement, parameters: values_from_foreign(parameters) }
}

/// Whether `out` is the proxy's answer where the underlying connection
/// answered `outcome`: the same result or the same failure, in the foreign
/// vocabulary.
pub open spec fn answers(
    outcome: Result<QueryResult, StoreError>,
    out: Result<ForeignQueryResult, ForeignError>,
) -> bool {
    match outcome {
        Ok(result) => out matches Ok(foreign) && foreign@ == result@ && foreign.columns
            == result.columns,
        Err(failure) => out == Err::<ForeignQueryResult, ForeignError>(failure.foreign()),
    }
}

impl<C> ProxyConnection<C> {
    /// Opens the proxy on the store named `database`.
    ///
    /// `connect` opens the underlying connection; it is called once, with the
    /// name as it was given. The handle that it returns is wrapped as it is,
    /// and a failure is rewritten in the foreign vocabulary.
    pub fn open<F: FnOnce(String) -> Result<C, StoreError>>(database: String, connect: F) -> (out:
        Result<ProxyConnection<C>, ForeignError>)
        requires
            connect.requires((database,)),
        ensures
            exists|opened: Result<C, StoreError>|
                {
                    &&& #[trigger] connect.ensures((database,), opened)
                    &&& opened matches Ok(connection) ==> out == Ok::<
                        ProxyConnection<C>,
                        ForeignError,
                    >(ProxyConnection(connection))
                    &&& opened matches Err(failure) ==> out == Err::<
                        ProxyConnection<C>,
                        ForeignError,
                    >(failure.foreign())
                },
    {
        match connect(database) {
            Ok(connection) => Ok(ProxyConnection(connection)),
            Err(failure) => Err(failure.to_foreign()),
        }
    }

    /// Executes a statement through the proxy.
    ///
    /// `run` executes a statement on the underlying connection; it is called
    /// once, with the connection that the proxy wraps and with the statement
    /// that [`request`] gives. Its answer is handed back in the foreign
    /// vocabulary.
    pub fn execute<F: FnOnce(&C, Statement) -> Result<QueryResult, StoreError>>(
        &self,
        statement: String,
        parameters: Vec<ForeignValue>,
        run: F,
    ) -> (out: Result<ForeignQueryResult, ForeignError>)
        requires
            forall|handed: Statement|
                handed.text == statement && handed.parameters@ == parameters@.map_values(
                    |value: ForeignValue| value.native(),
                ) ==> #[trigger] run.requires((&self.0, handed)),
        ensures
            exists|handed: Statement, outcome: Result<QueryResult, StoreError>|
                {
                    &&& handed.text == statement
                    &&& handed.parameters@ == parameters@.map_values(
                        |value: ForeignValue| value.native(),
                    )
                    &&& #[trigger] run.ensures((&self.0, handed), outcome)
                    &&& answers(outcome, out)
                },
    {
        let handed = request(statement, parameters);
        let outcome = run(&self.0, handed);
        outcome_to_foreign(outcome)
    }
}

} // verus!
