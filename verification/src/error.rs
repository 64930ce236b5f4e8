//! Failures: those of the store, in two vocabularies, and those of this
//! layer's own conversions and checks.

use vstd::prelude::*;
use vstd::string::StringExecFns;

verus! {

/// What a store failure is, whichever vocabulary it is written in.
pub enum StoreErrorView {
    AccessDenied,
    NoSuchStore,
    InvalidConnection,
    StoreFull,
    Io(Seq<char>),
}

/// A failure as the store's connection reports it.
#[derive(Debug, PartialEq, Eq)]
pub enum StoreError {
    /// The caller may not use the store.
    AccessDenied,
    /// There is no store of the name given.
    NoSuchStore,
    /// The connection handle is not, or no longer, valid.
    InvalidConnection,
    /// The store has no room left.
    StoreFull,
    /// Any other failure, with the store's message.
    Io(String),
}

/// A failure as the proxy reports it to its callers.
#[derive(Debug, PartialEq, Eq)]
pub enum ForeignError {
    AccessDenied,
    NoSuchStore,
    InvalidConnection,
    StoreFull,
    Io(String),
}

impl View for StoreError {
    type V = StoreErrorView;

    open spec fn view(&self) -> StoreErrorView {
        match self {
            StoreError::AccessDenied => StoreErrorView::AccessDenied,
            StoreError::NoSuchStore => StoreErrorView::NoSuchStore,
            StoreError::InvalidConnection => StoreErrorView::InvalidConnection,
            StoreError::StoreFull => StoreErrorView::StoreFull,
            StoreError::Io(message) => StoreErrorView::Io(message@),
        }
    }
}

impl View for ForeignError {
    type V = StoreErrorView;

    open spec fn view(&self) -> StoreErrorView {
        match self {
            ForeignError::AccessDenied => StoreErrorView::AccessDenied,
            ForeignError::NoSuchStore => StoreErrorView::NoSuchStore,
            ForeignError::InvalidConnection => StoreErrorView::InvalidConnection,
            ForeignError::StoreFull => StoreErrorView::StoreFull,
            ForeignError::Io(message) => StoreErrorView::Io(message@),
        }
    }
}

impl Clone for StoreError {
    /// A copy equal to the failure.
    fn clone(&self) -> (out: Self)
        ensures
            out == *self,
    {
        match self {
            StoreError::AccessDenied => StoreError::AccessDenied,
            StoreError::NoSuchStore => StoreError::NoSuchStore,
            StoreError::InvalidConnection => StoreError::InvalidConnection,
            StoreError::StoreFull => StoreError::StoreFull,
            StoreError::Io(message) => StoreError::Io(message.clone()),
        }
    }
}

impl Clone for ForeignError {
    /// A copy equal to the failure.
    fn clone(&self) -> (out: Self)
        ensures
            out == *self,
    {
        match self {
            ForeignError::AccessDenied => ForeignError::AccessDenied,
            ForeignError::NoSuchStore => ForeignError::NoSuchStore,
            ForeignError::InvalidConnection => ForeignError::InvalidConnection,
            ForeignError::StoreFull => ForeignError::StoreFull,
            ForeignError::Io(message) => ForeignError::Io(message.clone()),
        }
    }
}

impl StoreError {
    /// The same failure in the foreign vocabulary.
    pub open spec fn foreign(self) -> ForeignError {
        match self {
            StoreError::AccessDenied => ForeignError::AccessDenied,
            StoreError::NoSuchStore => ForeignError::NoSuchStore,
            StoreError::InvalidConnection => ForeignError::InvalidConnection,
            StoreError::StoreFull => ForeignError::StoreFull,
            StoreError::Io(message) => ForeignError::Io(message),
        }
    }

    /// Rewrites the failure in the foreign vocabulary; the message of an
    /// `Io` failure passes through unchanged.
    pub fn to_foreign(self) -> (out: ForeignError)
        ensures
            out == self.foreign(),
            out@ == self@,
    {
        match self {
            StoreError::AccessDenied => ForeignError::AccessDenied,
            StoreError::NoSuchStore => ForeignError::NoSuchStore,
            StoreError::InvalidConnection => ForeignError::InvalidConnection,
            StoreError::StoreFull => ForeignError::StoreFull,
            StoreError::Io(message) => ForeignError::Io(message),
        }
    }

    /// Rewrites a foreign failure in the store's vocabulary.
    pub fn from_foreign(error: ForeignError) -> (out: StoreError)
        ensures
            out == error.native(),
            out@ == error@,
    {
        match error {
            ForeignError::AccessDenied => StoreError::AccessDenied,
            ForeignError::NoSuchStore => StoreError::NoSuchStore,
            ForeignError::InvalidConnection => StoreError::InvalidConnection,
            ForeignError::StoreFull => StoreError::StoreFull,
            ForeignError::Io(message) => StoreError::Io(message),
        }
    }
}

impl StoreError {
    /// The text of [`StoreError::message`].
    pub open spec fn message_text(self) -> Seq<char> {
        match self {
            StoreError::AccessDenied => "access to the store is denied"@,
            StoreError::NoSuchStore => "there is no such store"@,
            StoreError::InvalidConnection => "the connection is not valid"@,
            StoreError::StoreFull => "the store is full"@,
            StoreError::Io(message) => "the store failed: "@ + message@,
        }
    }

    /// A message for a reader; an `Io` failure gives the store's own.
    pub fn message(&self) -> (out: String)
        ensures
            out@ == self.message_text(),
    {
        match self {
            StoreError::AccessDenied => String::from_str("access to the store is denied"),
            StoreError::NoSuchStore => String::from_str("there is no such store"),
            StoreError::InvalidConnection => String::from_str("the connection is not valid"),
            StoreError::StoreFull => String::from_str("the store is full"),
            StoreError::Io(message) => String::from_str("the store failed: ").concat(
                message.as_str(),
            ),
        }
    }
}

impl ForeignError {
    /// The same failure in the store's vocabulary.
    pub open spec fn native(self) -> StoreError {
        match self {
            ForeignError::AccessDenied => StoreError::AccessDenied,
            ForeignError::NoSuchStore => StoreError::NoSuchStore,
            ForeignError::InvalidConnection => StoreError::InvalidConnection,
            ForeignError::StoreFull => StoreError::StoreFull,
            ForeignError::Io(message) => StoreError::Io(message),
        }
    }
}

impl From<StoreError> for ForeignError {
    /// The same as [`StoreError::to_foreign`].
    fn from(error: StoreError) -> (out: ForeignError) {
        error.to_foreign()
    }
}

impl vstd::std_specs::convert::FromSpecImpl<StoreError> for ForeignError {
    open spec fn obeys_from_spec() -> bool {
        true
    }

    open spec fn from_spec(error: StoreError) -> ForeignError {
        error.foreign()
    }
}

impl From<ForeignError> for StoreError {
    /// The same as [`StoreError::from_foreign`].
    fn from(error: ForeignError) -> (out: StoreError) {
        StoreError::from_foreign(error)
    }
}

impl vstd::std_specs::convert::FromSpecImpl<ForeignError> for StoreError {
    open spec fn obeys_from_spec() -> bool {
        true
    }

    open spec fn from_spec(error: ForeignError) -> StoreError {
        error.native()
    }
}

/// A failure that goes to the foreign vocabulary and back is unchanged.
pub proof fn lemma_error_round_trip(error: StoreError)
    ensures
        error.foreign().native() == error,
        error.foreign()@ == error@,
{
}

/// A foreign failure that goes to the store's vocabulary and back is
/// unchanged.
pub proof fn lemma_foreign_error_round_trip(error: ForeignError)
    ensures
        error.native().foreign() == error,
        error.native()@ == error@,
{
}

/// A column of the entity table.
#[derive(Debug, Clone, Copy, PartialEq, Eq, Structural)]
pub enum Column {
    Id,
    Description,
    DueDate,
    Starred,
    IsCompleted,
}

impl Column {
    /// The column's name in the store.
    pub open spec fn spec_name(self) -> Seq<char> {
        match self {
            Column::Id => "id"@,
            Column::Description => "description"@,
            Column::DueDate => "due_date"@,
            Column::Starred => "starred"@,
            Column::IsCompleted => "is_completed"@,
        }
    }

    /// The column's name in the store.
    pub fn name(self) -> (out: &'static str)
        ensures
            out@ == self.spec_name(),
    {
        match self {
            Column::Id => "id",
            Column::Description => "description",
            Column::DueDate => "due_date",
            Column::Starred => "starred",
            Column::IsCompleted => "is_completed",
        }
    }
}

/// What a mapping failure is.
pub enum MappingErrorView {
    MissingColumn(Column),
    MalformedDate(Seq<char>),
    TypeMismatch(Column),
}

/// A row that does not have the shape of an entity.
#[derive(Debug, PartialEq, Eq)]
pub enum MappingError {
    /// The row has no value under the column.
    MissingColumn(Column),
    /// The due date is a text that is no date; the text is kept.
    MalformedDate(String),
    /// The value under the column is of another type than the column's.
    TypeMismatch(Column),
}

impl View for MappingError {
    type V = MappingErrorView;

    open spec fn view(&self) -> MappingErrorView {
        match self {
            MappingError::MissingColumn(column) => MappingErrorView::MissingColumn(*column),
            MappingError::MalformedDate(text) => MappingErrorView::MalformedDate(text@),
            MappingError::TypeMismatch(column) => MappingErrorView::TypeMismatch(*column),
        }
    }
}

impl MappingErrorView {
    /// The text of [`MappingError::message`].
    pub open spec fn message_text(self) -> Seq<char> {
        match self {
            MappingErrorView::MissingColumn(column) => "row has no "@ + column.spec_name(),
            MappingErrorView::MalformedDate(text) => "due_date is in wrong format: "@ + text,
            MappingErrorView::TypeMismatch(column) => "row has a value of another type in "@
                + column.spec_name(),
        }
    }
}

impl MappingError {
    /// A message for a reader, which names the column or gives the text that
    /// is at fault.
    pub fn message(&self) -> (out: String)
        ensures
            out@ == self@.message_text(),
    {
        match self {
            MappingError::MissingColumn(column) => String::from_str("row has no ").concat(
                column.name(),
            ),
            MappingError::MalformedDate(text) => String::from_str(
                "due_date is in wrong format: ",
            ).concat(text.as_str()),
            MappingError::TypeMismatch(column) => String::from_str(
                "row has a value of another type in ",
            ).concat(column.name()),
        }
    }
}

/// What a validation failure is.
pub enum ValidationErrorView {
    InvalidIdentifier(Seq<char>),
    MissingDescription,
}

/// A request that is refused before the store is asked anything.
#[derive(Debug, PartialEq, Eq)]
pub enum ValidationError {
    /// The identifier is not the decimal form of an identifier; the text is
    /// kept.
    InvalidIdentifier(String),
    /// No description was supplied.
    MissingDescription,
}

impl View for ValidationError {
    type V = ValidationErrorView;

    open spec fn view(&self) -> ValidationErrorView {
        match self {
            ValidationError::InvalidIdentifier(text) => ValidationErrorView::InvalidIdentifier(
                text@,
            ),
            ValidationError::MissingDescription => ValidationErrorView::MissingDescription,
        }
    }
}

impl ValidationErrorView {
    /// The text of [`ValidationError::message`].
    pub open spec fn message_text(self) -> Seq<char> {
        match self {
            ValidationErrorView::InvalidIdentifier(text) => "not an identifier: "@ + text,
            ValidationErrorView::MissingDescription => "a description is required"@,
        }
    }
}

impl ValidationError {
    /// A message for a reader, which gives the identifier that is at fault.
    pub fn message(&self) -> (out: String)
        ensures
            out@ == self@.message_text(),
    {
        match self {
            ValidationError::InvalidIdentifier(text) => String::from_str(
                "not an identifier: ",
            ).concat(text.as_str()),
            ValidationError::MissingDescription => String::from_str("a description is required"),
        }
    }
}

/// What a failed operation of the repository reports.
pub enum RepositoryErrorView {
    Validation(ValidationErrorView),
    Store(StoreErrorView),
    Mapping(MappingErrorView),
    CreationFailed,
}

/// A failed operation of the repository.
#[derive(Debug, PartialEq, Eq)]
pub enum RepositoryError {
    /// The request was refused, and the store was not asked.
    Validation(ValidationError),
    /// The store failed; its failure is handed on as it came.
    Store(StoreError),
    /// A row of the result does not have the shape of an entity.
    Mapping(MappingError),
    /// The store returned no identifier for a new entity.
    CreationFailed,
}

impl View for RepositoryError {
    type V = RepositoryErrorView;

    open spec fn view(&self) -> RepositoryErrorView {
        match self {
            RepositoryError::Validation(error) => RepositoryErrorView::Validation(error@),
            RepositoryError::Store(error) => RepositoryErrorView::Store(error@),
            RepositoryError::Mapping(error) => RepositoryErrorView::Mapping(error@),
            RepositoryError::CreationFailed => RepositoryErrorView::CreationFailed,
        }
    }
}

impl RepositoryError {
    /// The text of [`RepositoryError::message`].
    pub open spec fn message_text(self) -> Seq<char> {
        match self {
            RepositoryError::Validation(error) => error@.message_text(),
            RepositoryError::Store(error) => error.message_text(),
            RepositoryError::Mapping(error) => error@.message_text(),
            RepositoryError::CreationFailed => "the store returned no identifier"@,
        }
    }

    /// A message for a reader: that of the failure inside, where there is
    /// one.
    pub fn message(&self) -> (out: String)
        ensures
            out@ == self.message_text(),
    {
        match self {
            RepositoryError::Validation(error) => error.message(),
            RepositoryError::Store(error) => error.message(),
            RepositoryError::Mapping(error) => error.message(),
            RepositoryError::CreationFailed => String::from_str("the store returned no identifier"),
        }
    }
}

} // verus!
