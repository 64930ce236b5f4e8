//! The entity repository: list, create, update and delete.
//!
//! Every operation is one round trip to the store, and the store is not
//! reached from here. An operation is therefore two steps with the round
//! trip between them: a request, which validates the input and gives the
//! one statement to execute, and a response, which turns what the store
//! answered into the operation's result. A request that fails gives no
//! statement, so nothing is sent.
//!
//! [`list`], [`create`], [`update`] and [`delete`] are the operations whole.
//! They take the round trip as a function, which they call once with the
//! statement of the operation, or not at all where the request is refused.

use vstd::prelude::*;
use vstd::string::StringExecFns;
use crate::date::{iso_text, lemma_text_of_day, optional_day, Date, Ymd};
use crate::entity::{
    entities_of,
    entities_view,
    first_failure,
    maps_to,
    Entity,
    EntityView,
    RowView,
};
use crate::error::{
    Column,
    MappingError,
    MappingErrorView,
    RepositoryError,
    RepositoryErrorView,
    StoreError,
    ValidationError,
    ValidationErrorView,
};
use crate::filter::{build, predicate_text};
use crate::identifier::{identifier_of, parse_identifier};
use crate::rows::{QueryResult, QueryResultView};
use crate::statement::{Statement, StatementView};
use crate::value::{Value, ValueView};

verus! {

/// The statement that lists entities, up to the predicate.
pub const SELECT: &'static str = "SELECT * FROM entities ";

/// The statement that creates an entity and returns its identifier.
pub const INSERT: &'static str =
    "INSERT INTO entities (description, due_date) VALUES(?, ?) RETURNING id;";

/// The statement that sets the completion flag of an entity.
pub const UPDATE: &'static str = "UPDATE entities SET is_completed = (?) WHERE ID = (?);";

/// The statement that removes an entity.
pub const DELETE: &'static str = "DELETE FROM entities WHERE ID = (?);";

/// What the payload of a create operation holds.
pub struct NewEntityView {
    pub description: Seq<char>,
    pub due_date: Option<Ymd>,
}

/// The payload of a create operation, once validated: a description, which
/// is not empty, and an optional due date.
#[derive(Debug, PartialEq, Eq)]
pub struct NewEntity {
    description: String,
    due_date: Option<Date>,
}

impl View for NewEntity {
    type V = NewEntityView;

    closed spec fn view(&self) -> NewEntityView {
        NewEntityView { description: self.description@, due_date: optional_day(self.due_date) }
    }
}

impl NewEntity {
    /// The description of a new entity is never empty.
    #[verifier::type_invariant]
    pub open spec fn valid(self) -> bool {
        self@.description.len() > 0
    }

    /// Validates the payload of a create operation: a description must be
    /// supplied, and it must not be empty.
    pub fn new(description: Option<String>, due_date: Option<Date>) -> (out: Result<
        NewEntity,
        ValidationError,
    >)
        ensures
            out is Ok <==> (description matches Some(text) && text@.len() > 0),
            out matches Ok(new) ==> new@.description == description.unwrap()@ && new@.due_date
                == optional_day(due_date),
            out matches Err(error) ==> error == ValidationError::MissingDescription,
    {
        match description {
            Some(text) => {
                if text.as_str().is_empty() {
                    Err(ValidationError::MissingDescription)
                } else {
                    Ok(NewEntity { description: text, due_date })
                }
            },
            None => Err(ValidationError::MissingDescription),
        }
    }

    /// The description.
    pub fn description(&self) -> (out: &String)
        ensures
            out@ == self@.description,
            out@.len() > 0,
    {
        proof {
            use_type_invariant(self);
        }
        &self.description
    }

    /// The due date, if there is one.
    pub fn due_date(&self) -> (out: Option<Date>)
        ensures
            optional_day(out) == self@.due_date,
    {
        self.due_date
    }
}

/// The value that stands for a due date in the store: the textual form of
/// the date, or null where there is none.
pub open spec fn due_value(due_date: Option<Ymd>) -> ValueView {
    match due_date {
        Some(day) => ValueView::Text(iso_text(day)),
        None => ValueView::Null,
    }
}

/// The value that stands for a flag in the store: 1 for `true`, 0 for
/// `false`.
pub open spec fn flag_value(flag: bool) -> ValueView {
    ValueView::Integer(
        if flag {
            1
        } else {
            0
        },
    )
}

/// The statement of a list operation: every column of every entity that the
/// predicate for the given filters admits, as of `today`. Nothing is bound,
/// and no order is asked for.
pub open spec fn list_statement(
    due: Option<bool>,
    completed: Option<bool>,
    today: Ymd,
) -> StatementView {
    StatementView {
        text: SELECT@ + predicate_text(due, completed, iso_text(today)) + ";"@,
        parameters: Seq::empty(),
    }
}

/// The statement of a create operation. The description and the due date
/// are bound, in this order, and never written into the text.
pub open spec fn create_statement(new: NewEntityView) -> StatementView {
    StatementView {
        text: INSERT@,
        parameters: seq![ValueView::Text(new.description), due_value(new.due_date)],
    }
}

/// The statement of an update operation, which sets the completion flag of
/// the entity with the given identifier. The flag and the identifier are
/// bound, in this order.
pub open spec fn update_statement(id: u32, is_completed: bool) -> StatementView {
    StatementView {
        text: UPDATE@,
        parameters: seq![flag_value(is_completed), ValueView::Integer(id as i64)],
    }
}

/// The statement of a delete operation, which removes the entity with the
/// given identifier. The identifier is bound.
pub open spec fn delete_statement(id: u32) -> StatementView {
    StatementView { text: DELETE@, parameters: seq![ValueView::Integer(id as i64)] }
}

/// Whether `out` is the result of a list operation to which the store
/// answered `outcome`: the entities of the rows that the store returned, in
/// the store's order. A failure of the store is handed on as it came; where
/// a row maps to no entity, the first such row's failure is the result.
pub open spec fn listed(
    outcome: Result<QueryResult, StoreError>,
    out: Result<Vec<Entity>, RepositoryError>,
) -> bool {
    match outcome {
        Err(failure) => out == Err::<Vec<Entity>, RepositoryError>(RepositoryError::Store(failure)),
        Ok(result) => match out {
            Ok(entities) => maps_to(result@, entities_view(entities@)),
            Err(RepositoryError::Mapping(error)) => first_failure(result@, error@),
            Err(_) => false,
        },
    }
}

/// The identifier that the store returned for a new entity: the first value
/// of the first row.
///
/// Where the store returned no row, or a row without a value, the creation
/// has failed; where the value is not an identifier, the types do not match.
pub open spec fn returned_id(result: QueryResultView) -> Result<u32, RepositoryErrorView> {
    if result.rows.len() == 0 || result.rows[0].len() == 0 {
        Err(RepositoryErrorView::CreationFailed)
    } else {
        match result.rows[0][0] {
            ValueView::Integer(i) => if 0 <= i <= u32::MAX {
                Ok(i as u32)
            } else {
                Err(RepositoryErrorView::Mapping(MappingErrorView::TypeMismatch(Column::Id)))
            },
            _ => Err(RepositoryErrorView::Mapping(MappingErrorView::TypeMismatch(Column::Id))),
        }
    }
}

/// Whether `out` is the result of the create operation for `new` to which
/// the store answered `outcome`: the new entity, with the identifier that
/// the store assigned, not starred and not completed. A failure of the store
/// is handed on as it came.
pub open spec fn created(
    new: NewEntityView,
    outcome: Result<QueryResult, StoreError>,
    out: Result<Entity, RepositoryError>,
) -> bool {
    match outcome {
        Err(failure) => out == Err::<Entity, RepositoryError>(RepositoryError::Store(failure)),
        Ok(result) => match returned_id(result@) {
            Ok(id) => out matches Ok(entity) && entity@ == (EntityView {
                id,
                description: new.description,
                due_date: new.due_date,
                starred: false,
                is_completed: false,
            }),
            Err(error) => out matches Err(reported) && reported@ == error,
        },
    }
}

/// Whether `out` is the result of an update or a delete operation to which
/// the store answered `outcome`. No row is expected and none is looked at:
/// success has no content, and a failure of the store is handed on as it
/// came.
pub open spec fn written(
    outcome: Result<QueryResult, StoreError>,
    out: Result<(), RepositoryError>,
) -> bool {
    match outcome {
        Ok(_) => out is Ok,
        Err(failure) => out == Err::<(), RepositoryError>(RepositoryError::Store(failure)),
    }
}

/// The statement of a list operation.
pub fn list_request(due: Option<bool>, completed: Option<bool>, today: &Date) -> (out: Statement)
    ensures
        out@ == list_statement(due, completed, today@),
{
    let predicate = build(due, completed, today);
    let text = String::from_str(SELECT).concat(predicate.clause.as_str()).concat(";");
    let out = Statement { text, parameters: predicate.parameters };
    assert(out@.parameters =~= Seq::empty());
    out
}

/// The result of a list operation, from the answer of the store.
pub fn list_response(outcome: Result<QueryResult, StoreError>) -> (out: Result<
    Vec<Entity>,
    RepositoryError,
>)
    ensures
        listed(outcome, out),
{
    match outcome {
        Err(failure) => Err(RepositoryError::Store(failure)),
        Ok(result) => match entities_of(&result) {
            Ok(entities) => Ok(entities),
            Err(error) => Err(RepositoryError::Mapping(error)),
        },
    }
}

/// Lists the entities that the given filters admit, as of `today`.
///
/// The one statement of the operation is handed to `execute`, which makes
/// the round trip to the store, and nothing else is.
pub fn list<F: FnOnce(Statement) -> Result<QueryResult, StoreError>>(
    due: Option<bool>,
    completed: Option<bool>,
    today: &Date,
    execute: F,
) -> (out: Result<Vec<Entity>, RepositoryError>)
    requires
        forall|statement: Statement|
            statement@ == list_statement(due, completed, today@) ==> #[trigger] execute.requires(
                (statement,),
            ),
    ensures
        exists|statement: Statement, outcome: Result<QueryResult, StoreError>|
            {
                &&& statement@ == list_statement(due, completed, today@)
                &&& #[trigger] execute.ensures((statement,), outcome)
                &&& listed(outcome, out)
            },
{
    let statement = list_request(due, completed, today);
    let outcome = execute(statement);
    list_response(outcome)
}

/// The statement of a create operation.
pub fn create_request(new: &NewEntity) -> (out: Statement)
    ensures
        out@ == create_statement(new@),
{
    let due = match new.due_date() {
        Some(date) => Value::Text(date.format()),
        None => Value::Null,
    };
    let mut parameters: Vec<Value> = Vec::new();
    parameters.push(Value::Text(new.description().clone()));
    parameters.push(due);
    let out = Statement { text: String::from_str(INSERT), parameters };
    assert(out@.parameters =~= create_statement(new@).parameters);
    out
}

/// The result of a create operation, from the answer of the store.
pub fn create_response(new: NewEntity, outcome: Result<QueryResult, StoreError>) -> (out: Result<
    Entity,
    RepositoryError,
>)
    ensures
        created(new@, outcome, out),
{
    let result = match outcome {
        Err(failure) => return Err(RepositoryError::Store(failure)),
        Ok(result) => result,
    };
    if result.rows.len() == 0 || result.rows[0].values.len() == 0 {
        return Err(RepositoryError::CreationFailed);
    }
    let id = match &result.rows[0].values[0] {
        Value::Integer(i) => {
            if 0 <= *i && *i <= 0xffff_ffff {
                *i as u32
            } else {
                return Err(RepositoryError::Mapping(MappingError::TypeMismatch(Column::Id)));
            }
        },
        _ => return Err(RepositoryError::Mapping(MappingError::TypeMismatch(Column::Id))),
    };
    let NewEntity { description, due_date } = new;
    Ok(Entity { id, description, due_date, starred: false, is_completed: false })
}

/// Whether a description is supplied: it is there and it is not empty.
pub open spec fn is_supplied(description: Option<String>) -> bool {
    description matches Some(text) && text@.len() > 0
}

/// What a payload holds whose description is supplied.
pub open spec fn payload(description: Option<String>, due_date: Option<Date>) -> NewEntityView {
    NewEntityView { description: description.unwrap()@, due_date: optional_day(due_date) }
}

/// Creates an entity with the given description and due date.
///
/// A payload without a description is refused, and `execute` is then not
/// called. Otherwise the one statement of the operation is handed to
/// `execute`, which makes the round trip to the store, and nothing else is.
pub fn create<F: FnOnce(Statement) -> Result<QueryResult, StoreError>>(
    description: Option<String>,
    due_date: Option<Date>,
    execute: F,
) -> (out: Result<Entity, RepositoryError>)
    requires
        forall|statement: Statement|
            is_supplied(description) && statement@ == create_statement(
                payload(description, due_date),
            ) ==> #[trigger] execute.requires((statement,)),
    ensures
        !is_supplied(description) ==> out == Err::<Entity, RepositoryError>(
            RepositoryError::Validation(ValidationError::MissingDescription),
        ),
        is_supplied(description) ==> exists|
            statement: Statement,
            outcome: Result<QueryResult, StoreError>,
        |
            {
                &&& statement@ == create_statement(payload(description, due_date))
                &&& #[trigger] execute.ensures((statement,), outcome)
                &&& created(payload(description, due_date), outcome, out)
            },
{
    let new = match NewEntity::new(description, due_date) {
        Ok(new) => new,
        Err(error) => return Err(RepositoryError::Validation(error)),
    };
    let statement = create_request(&new);
    let outcome = execute(statement);
    create_response(new, outcome)
}

/// The columns of the entity table, in the order of the table.
pub open spec fn table_columns() -> Seq<Seq<char>> {
    seq![
        Column::Id.spec_name(),
        Column::Description.spec_name(),
        Column::DueDate.spec_name(),
        Column::Starred.spec_name(),
        Column::IsCompleted.spec_name(),
    ]
}

/// The row of the entity table for an entity created with the given
/// identifier: the values that a create operation binds, and both flags
/// unset.
pub open spec fn created_row(id: u32, new: NewEntityView) -> RowView {
    RowView {
        columns: table_columns(),
        values: seq![
            ValueView::Integer(id as i64),
            ValueView::Text(new.description),
            due_value(new.due_date),
            flag_value(false),
            flag_value(false),
        ],
    }
}

/// What is written is what is read: the row of a created entity maps to the
/// entity that the create operation returned. In particular a due date comes
/// back as the day that went in.
pub proof fn lemma_created_row_is_read_back(id: u32, new: NewEntityView)
    requires
        new.due_date matches Some(day) ==> day.is_valid(),
    ensures
        created_row(id, new).entity() == Ok::<EntityView, MappingErrorView>(
            EntityView {
                id,
                description: new.description,
                due_date: new.due_date,
                starred: false,
                is_completed: false,
            },
        ),
{
    let row = created_row(id, new);
    let names = row.columns;
    reveal_strlit("id");
    reveal_strlit("description");
    reveal_strlit("due_date");
    reveal_strlit("starred");
    reveal_strlit("is_completed");
    assert(names[0].len() == 2);
    assert(names[1].len() == 11);
    assert(names[2].len() == 8);
    assert(names[3].len() == 7);
    assert(names[4].len() == 12);
    names.index_of_first_ensures(Column::Id.spec_name());
    names.index_of_first_ensures(Column::Description.spec_name());
    names.index_of_first_ensures(Column::DueDate.spec_name());
    names.index_of_first_ensures(Column::Starred.spec_name());
    names.index_of_first_ensures(Column::IsCompleted.spec_name());
    assert(row.get(Column::Id) == Some(row.values[0]));
    assert(row.get(Column::Description) == Some(row.values[1]));
    assert(row.get(Column::DueDate) == Some(row.values[2]));
    assert(row.get(Column::Starred) == Some(row.values[3]));
    assert(row.get(Column::IsCompleted) == Some(row.values[4]));
    if let Some(day) = new.due_date {
        lemma_text_of_day(day);
    }
}

/// Reads the identifier of an update or a delete operation.
fn identifier(id: &str) -> (out: Result<u32, ValidationError>)
    ensures
        identifier_of(id@) matches Some(n) ==> out == Ok::<u32, ValidationError>(n),
        identifier_of(id@) is None ==> (out matches Err(error) && error@
            == ValidationErrorView::InvalidIdentifier(id@)),
{
    match parse_identifier(id) {
        Some(n) => Ok(n),
        None => Err(ValidationError::InvalidIdentifier(String::from_str(id))),
    }
}

/// The statement of an update operation.
///
/// An identifier that is not the decimal form of one is refused, and there is
/// then no statement to send.
pub fn update_request(id: &str, is_completed: bool) -> (out: Result<Statement, ValidationError>)
    ensures
        identifier_of(id@) matches Some(n) ==> (out matches Ok(statement) && statement@
            == update_statement(n, is_completed)),
        identifier_of(id@) is None ==> (out matches Err(error) && error@
            == ValidationErrorView::InvalidIdentifier(id@)),
{
    let n = match identifier(id) {
        Ok(n) => n,
        Err(error) => return Err(error),
    };
    let flag: i64 = if is_completed {
        1
    } else {
        0
    };
    let mut parameters: Vec<Value> = Vec::new();
    parameters.push(Value::Integer(flag));
    parameters.push(Value::Integer(n as i64));
    let out = Statement { text: String::from_str(UPDATE), parameters };
    assert(out@.parameters =~= update_statement(n, is_completed).parameters);
    Ok(out)
}

/// The statement of a delete operation.
///
/// An identifier that is not the decimal form of one is refused, and there is
/// then no statement to send.
pub fn delete_request(id: &str) -> (out: Result<Statement, ValidationError>)
    ensures
        identifier_of(id@) matches Some(n) ==> (out matches Ok(statement) && statement@
            == delete_statement(n)),
        identifier_of(id@) is None ==> (out matches Err(error) && error@
            == ValidationErrorView::InvalidIdentifier(id@)),
{
    let n = match identifier(id) {
        Ok(n) => n,
        Err(error) => return Err(error),
    };
    let mut parameters: Vec<Value> = Vec::new();
    parameters.push(Value::Integer(n as i64));
    let out = Statement { text: String::from_str(DELETE), parameters };
    assert(out@.parameters =~= delete_statement(n).parameters);
    Ok(out)
}

/// The result of an update or a delete operation, from the answer of the
/// store.
pub fn write_response(outcome: Result<QueryResult, StoreError>) -> (out: Result<
    (),
    RepositoryError,
>)
    ensures
        written(outcome, out),
{
    match outcome {
        Ok(_) => Ok(()),
        Err(failure) => Err(RepositoryError::Store(failure)),
    }
}

/// Sets the completion flag of the entity with the given identifier.
///
/// An identifier that is not the decimal form of one is refused, and
/// `execute` is then not called. Otherwise the one statement of the
/// operation is handed to `execute`, which makes the round trip to the
/// store, and nothing else is.
pub fn update<F: FnOnce(Statement) -> Result<QueryResult, StoreError>>(
    id: &str,
    is_completed: bool,
    execute: F,
) -> (out: Result<(), RepositoryError>)
    requires
        forall|statement: Statement|
            (identifier_of(id@) matches Some(n) && statement@ == update_statement(n, is_completed))
                ==> #[trigger] execute.requires((statement,)),
    ensures
        identifier_of(id@) is None ==> (out matches Err(error) && error@
            == RepositoryErrorView::Validation(ValidationErrorView::InvalidIdentifier(id@))),
        identifier_of(id@) matches Some(n) ==> exists|
            statement: Statement,
            outcome: Result<QueryResult, StoreError>,
        |
            {
                &&& statement@ == update_statement(n, is_completed)
                &&& #[trigger] execute.ensures((statement,), outcome)
                &&& written(outcome, out)
            },
{
    let statement = match update_request(id, is_completed) {
        Ok(statement) => statement,
        Err(error) => return Err(RepositoryError::Validation(error)),
    };
    let outcome = execute(statement);
    write_response(outcome)
}

/// Removes the entity with the given identifier.
///
/// An identifier that is not the decimal form of one is refused, and
/// `execute` is then not called. Otherwise the one statement of the
/// operation is handed to `execute`, which makes the round trip to the
/// store, and nothing else is.
pub fn delete<F: FnOnce(Statement) -> Result<QueryResult, StoreError>>(
    id: &str,
    execute: F,
) -> (out: Result<(), RepositoryError>)
    requires
        forall|statement: Statement|
            (identifier_of(id@) matches Some(n) && statement@ == delete_statement(n))
                ==> #[trigger] execute.requires((statement,)),
    ensures
        identifier_of(id@) is None ==> (out matches Err(error) && error@
            == RepositoryErrorView::Validation(ValidationErrorView::InvalidIdentifier(id@))),
        identifier_of(id@) matches Some(n) ==> exists|
            statement: Statement,
            outcome: Result<QueryResult, StoreError>,
        |
            {
                &&& statement@ == delete_statement(n)
                &&& #[trigger] execute.ensures((statement,), outcome)
                &&& written(outcome, out)
            },
{
    let statement = match delete_request(id) {
        Ok(statement) => statement,
        Err(error) => return Err(RepositoryError::Validation(error)),
    };
    let outcome = execute(statement);
    write_response(outcome)
}

} // verus!
