//! A data-access layer for a small to-do store.
//!
//! The crate turns optional filters into a parameterised query, maps the
//! loosely typed rows that a relational store hands back into typed records,
//! and bridges two independently declared vocabularies of database values,
//! rows and errors. It never reaches the store itself: it says what to send
//! and what to make of the answer, and whoever holds the connection makes
//! the round trip.
//!
//! - [`value`], [`error`] and [`rows`] hold the two vocabularies and the
//!   codec between them, which loses nothing in either direction.
//! - [`entity`] holds the to-do record and the mapping of a row to it.
//! - [`filter`] builds the `WHERE` clause of a list operation.
//! - [`repository`] gives, for each operation, the one statement to execute
//!   and the result to make of the store's answer.
//! - [`proxy`] offers a connection in the foreign vocabulary.
//! - [`date`] and [`identifier`] read and write the two textual forms that
//!   cross the boundary: `YYYY-MM-DD` and decimal identifiers.
//!
//! Everything here is verified against the contracts that the functions
//! state, with one exception: dates are parsed and formatted by the `time`
//! crate, through two private functions of [`date`] whose contracts are
//! taken on trust.

pub mod date;
pub mod digits;
pub mod entity;
pub mod error;
pub mod filter;
pub mod identifier;
pub mod proxy;
pub mod repository;
pub mod rows;
pub mod statement;
pub mod value;

pub use date::Date;
pub use entity::{row_to_entity, Entity, Row};
pub use error::{
    Column, ForeignError, MappingError, RepositoryError, StoreError, ValidationError,
};
pub use filter::{build, Predicate};
pub use proxy::ProxyConnection;
pub use repository::NewEntity;
pub use rows::{ForeignQueryResult, ForeignRowResult, QueryResult, RowResult};
pub use statement::Statement;
pub use value::{ForeignValue, Value};
