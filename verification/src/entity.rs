//! The entity, a to-do record, and the mapping of a row of the store to it.

use vstd::prelude::*;
use crate::date::{optional_day, read_date, Date, Ymd};
use crate::error::{Column, MappingError, MappingErrorView};
use crate::rows::{names_view, QueryResult, QueryResultView, RowResult};
use crate::value::{Value, ValueView};

verus! {

/// What an entity holds.
pub struct EntityView {
    pub id: u32,
    pub description: Seq<char>,
    pub due_date: Option<Ymd>,
    pub starred: bool,
    pub is_completed: bool,
}

/// A to-do record.
///
/// The store assigns the identifier when the record is created. The starred
/// flag is kept by the store and read back; no operation of this crate sets
/// it.
#[derive(Debug, PartialEq, Eq)]
pub struct Entity {
    pub id: u32,
    pub description: String,
    pub due_date: Option<Date>,
    pub starred: bool,
    pub is_completed: bool,
}

impl View for Entity {
    type V = EntityView;

    open spec fn view(&self) -> EntityView {
        EntityView {
            id: self.id,
            description: self.description@,
            due_date: optional_day(self.due_date),
            starred: self.starred,
            is_completed: self.is_completed,
        }
    }
}

impl Clone for Entity {
    /// A copy equal to the entity.
    fn clone(&self) -> (out: Self)
        ensures
            out == *self,
    {
        Entity {
            id: self.id,
            description: self.description.clone(),
            due_date: self.due_date,
            starred: self.starred,
            is_completed: self.is_completed,
        }
    }
}

/// What a row holds: the column names of its result and its own values.
pub struct RowView {
    pub columns: Seq<Seq<char>>,
    pub values: Seq<ValueView>,
}

impl RowView {
    /// The value under `column`: the one at the position of the first column
    /// of that name, if there is such a column and the row reaches that far.
    pub open spec fn get(self, column: Column) -> Option<ValueView> {
        match self.columns.index_of_first(column.spec_name()) {
            Some(position) => if position < self.values.len() {
                Some(self.values[position])
            } else {
                None
            },
            None => None,
        }
    }

    /// The integer under `column`.
    pub open spec fn integer(self, column: Column) -> Result<i64, MappingErrorView> {
        match self.get(column) {
            None => Err(MappingErrorView::MissingColumn(column)),
            Some(ValueView::Integer(i)) => Ok(i),
            Some(_) => Err(MappingErrorView::TypeMismatch(column)),
        }
    }

    /// The identifier: the integer under `id`, which must be one that an
    /// identifier can be.
    pub open spec fn id(self) -> Result<u32, MappingErrorView> {
        match self.integer(Column::Id) {
            Err(error) => Err(error),
            Ok(i) => if 0 <= i <= u32::MAX {
                Ok(i as u32)
            } else {
                Err(MappingErrorView::TypeMismatch(Column::Id))
            },
        }
    }

    /// The flag under `column`: an integer, which stands for `false` where
    /// it is 0 and for `true` otherwise.
    pub open spec fn flag(self, column: Column) -> Result<bool, MappingErrorView> {
        match self.integer(column) {
            Err(error) => Err(error),
            Ok(i) => Ok(i != 0),
        }
    }

    /// The description: the text under `description`.
    pub open spec fn description(self) -> Result<Seq<char>, MappingErrorView> {
        match self.get(Column::Description) {
            None => Err(MappingErrorView::MissingColumn(Column::Description)),
            Some(ValueView::Text(text)) => Ok(text),
            Some(_) => Err(MappingErrorView::TypeMismatch(Column::Description)),
        }
    }

    /// The due date: none where `due_date` holds null, and the date that the
    /// text is read as where it holds a text.
    pub open spec fn due_date(self) -> Result<Option<Ymd>, MappingErrorView> {
        match self.get(Column::DueDate) {
            None => Err(MappingErrorView::MissingColumn(Column::DueDate)),
            Some(ValueView::Null) => Ok(None),
            Some(ValueView::Text(text)) => match read_date(text) {
                Some(day) => Ok(Some(day)),
                None => Err(MappingErrorView::MalformedDate(text)),
            },
            Some(_) => Err(MappingErrorView::TypeMismatch(Column::DueDate)),
        }
    }

    /// The entity that the row stands for, or the first failure in the order
    /// identifier, description, due date, starred, completed.
    pub open spec fn entity(self) -> Result<EntityView, MappingErrorView> {
        match self.id() {
            Err(error) => Err(error),
            Ok(id) => match self.description() {
                Err(error) => Err(error),
                Ok(description) => match self.due_date() {
                    Err(error) => Err(error),
                    Ok(due_date) => match self.flag(Column::Starred) {
                        Err(error) => Err(error),
                        Ok(starred) => match self.flag(Column::IsCompleted) {
                            Err(error) => Err(error),
                            Ok(is_completed) => Ok(
                                EntityView { id, description, due_date, starred, is_completed },
                            ),
                        },
                    },
                },
            },
        }
    }
}

/// One row of a query result, with the column names of the result.
#[derive(Debug, Clone, Copy)]
pub struct Row<'a> {
    pub columns: &'a Vec<String>,
    pub result: &'a RowResult,
}

impl<'a> View for Row<'a> {
    type V = RowView;

    open spec fn view(&self) -> RowView {
        RowView { columns: names_view(self.columns@), values: self.result@ }
    }
}

impl<'a> Row<'a> {
    /// The value under `column`, if the row has one.
    pub fn get(&self, column: Column) -> (out: Option<&'a Value>)
        ensures
            out is Some <==> self@.get(column) is Some,
            out matches Some(value) ==> self@.get(column) == Some(value@),
    {
        let key = column.name().to_owned();
        let ghost names = names_view(self.columns@);
        let mut position: usize = 0;
        while position < self.columns.len()
            invariant
                position <= self.columns@.len(),
                names == names_view(self.columns@),
                key@ == column.spec_name(),
                forall|j: int| 0 <= j < position ==> names[j] != key@,
            decreases self.columns@.len() - position,
        {
            if self.columns[position] == key {
                proof {
                    names.index_of_first_ensures(key@);
                    assert(names[position as int] == key@);
                    assert(names.contains(key@));
                }
                if position < self.result.values.len() {
                    return Some(&self.result.values[position]);
                } else {
                    return None;
                }
            }
            position += 1;
        }
        proof {
            names.index_of_first_ensures(key@);
        }
        None
    }

    /// The integer under `column`.
    pub fn integer(&self, column: Column) -> (out: Result<i64, MappingError>)
        ensures
            out matches Ok(i) ==> self@.integer(column) == Ok::<i64, MappingErrorView>(i),
            out matches Err(error) ==> self@.integer(column) == Err::<i64, MappingErrorView>(
                error@,
            ),
    {
        match self.get(column) {
            None => Err(MappingError::MissingColumn(column)),
            Some(Value::Integer(i)) => Ok(*i),
            Some(_) => Err(MappingError::TypeMismatch(column)),
        }
    }

    /// The identifier of the row.
    pub fn id(&self) -> (out: Result<u32, MappingError>)
        ensures
            out matches Ok(id) ==> self@.id() == Ok::<u32, MappingErrorView>(id),
            out matches Err(error) ==> self@.id() == Err::<u32, MappingErrorView>(error@),
    {
        match self.integer(Column::Id) {
            Err(error) => Err(error),
            Ok(i) => if 0 <= i && i <= 0xffff_ffff {
                Ok(i as u32)
            } else {
                Err(MappingError::TypeMismatch(Column::Id))
            },
        }
    }

    /// The flag under `column`.
    pub fn flag(&self, column: Column) -> (out: Result<bool, MappingError>)
        ensures
            out matches Ok(flag) ==> self@.flag(column) == Ok::<bool, MappingErrorView>(flag),
            out matches Err(error) ==> self@.flag(column) == Err::<bool, MappingErrorView>(
                error@,
            ),
    {
        match self.integer(column) {
            Err(error) => Err(error),
            Ok(i) => Ok(i != 0),
        }
    }

    /// The description of the row.
    pub fn description(&self) -> (out: Result<&'a String, MappingError>)
        ensures
            out matches Ok(text) ==> self@.description() == Ok::<Seq<char>, MappingErrorView>(
                text@,
            ),
            out matches Err(error) ==> self@.description() == Err::<
                Seq<char>,
                MappingErrorView,
            >(error@),
    {
        match self.get(Column::Description) {
            None => Err(MappingError::MissingColumn(Column::Description)),
            Some(Value::Text(text)) => Ok(text),
            Some(_) => Err(MappingError::TypeMismatch(Column::Description)),
        }
    }

    /// The due date of the row: none where the store holds null, the date
    /// where it holds the textual form of one.
    pub fn due_date(&self) -> (out: Result<Option<Date>, MappingError>)
        ensures
            out matches Ok(due_date) ==> self@.due_date() == Ok::<
                Option<Ymd>,
                MappingErrorView,
            >(optional_day(due_date)),
            out matches Err(error) ==> self@.due_date() == Err::<
                Option<Ymd>,
                MappingErrorView,
            >(error@),
    {
        match self.get(Column::DueDate) {
            None => Err(MappingError::MissingColumn(Column::DueDate)),
            Some(Value::Null) => Ok(None),
            Some(Value::Text(text)) => match Date::parse(text.as_str()) {
                Some(date) => Ok(Some(date)),
                None => Err(MappingError::MalformedDate(text.clone())),
            },
            Some(_) => Err(MappingError::TypeMismatch(Column::DueDate)),
        }
    }
}

/// Maps a row to the entity that it stands for.
///
/// Every column is looked up by its name and read by the exact type that it
/// should have; nothing is coerced and nothing defaulted. The first failure,
/// in the order identifier, description, due date, starred, completed, is
/// the one reported.
pub fn row_to_entity(row: Row<'_>) -> (out: Result<Entity, MappingError>)
    ensures
        out matches Ok(entity) ==> row@.entity() == Ok::<EntityView, MappingErrorView>(entity@),
        out matches Err(error) ==> row@.entity() == Err::<EntityView, MappingErrorView>(error@),
{
    let id = match row.id() {
        Ok(id) => id,
        Err(error) => return Err(error),
    };
    let description = match row.description() {
        Ok(text) => text.clone(),
        Err(error) => return Err(error),
    };
    let due_date = match row.due_date() {
        Ok(due_date) => due_date,
        Err(error) => return Err(error),
    };
    let starred = match row.flag(Column::Starred) {
        Ok(flag) => flag,
        Err(error) => return Err(error),
    };
    let is_completed = match row.flag(Column::IsCompleted) {
        Ok(flag) => flag,
        Err(error) => return Err(error),
    };
    Ok(Entity { id, description, due_date, starred, is_completed })
}

/// What the row at `index` of a result holds.
pub open spec fn row_view(result: QueryResultView, index: int) -> RowView {
    RowView { columns: result.columns, values: result.rows[index] }
}

/// Whether `entities` are the entities of the rows of `result`, one for each
/// row and in the order of the rows.
pub open spec fn maps_to(result: QueryResultView, entities: Seq<EntityView>) -> bool {
    &&& entities.len() == result.rows.len()
    &&& forall|i: int|
        0 <= i < entities.len() ==> (#[trigger] row_view(result, i)).entity() == Ok::<
            EntityView,
            MappingErrorView,
        >(entities[i])
}

/// Whether `error` is the failure of the first row of `result` that maps to
/// no entity.
pub open spec fn first_failure(result: QueryResultView, error: MappingErrorView) -> bool {
    exists|k: int|
        {
            &&& 0 <= k < result.rows.len()
            &&& (#[trigger] row_view(result, k)).entity() == Err::<EntityView, MappingErrorView>(
                error,
            )
            &&& forall|j: int| 0 <= j < k ==> (#[trigger] row_view(result, j)).entity() is Ok
        }
}

/// What a sequence of entities holds.
pub open spec fn entities_view(entities: Seq<Entity>) -> Seq<EntityView> {
    entities.map_values(|entity: Entity| entity@)
}

/// Maps every row of a result to its entity, in the order of the rows.
///
/// The result is the sequence of the entities where every row maps to one,
/// and otherwise the failure of the first row that does not.
pub fn entities_of(result: &QueryResult) -> (out: Result<Vec<Entity>, MappingError>)
    ensures
        out matches Ok(entities) ==> maps_to(result@, entities_view(entities@)),
        out matches Err(error) ==> first_failure(result@, error@),
{
    let mut entities: Vec<Entity> = Vec::new();
    let mut index: usize = 0;
    while index < result.rows.len()
        invariant
            index <= result.rows@.len(),
            entities@.len() == index,
            forall|i: int|
                0 <= i < index ==> (#[trigger] row_view(result@, i)).entity() == Ok::<
                    EntityView,
                    MappingErrorView,
                >(entities@[i]@),
        decreases result.rows@.len() - index,
    {
        let row = Row { columns: &result.columns, result: &result.rows[index] };
        assert(row@ == row_view(result@, index as int));
        match row_to_entity(row) {
            Ok(entity) => entities.push(entity),
            Err(error) => {
                return Err(error);
            },
        }
        index += 1;
    }
    Ok(entities)
}

} // verus!
