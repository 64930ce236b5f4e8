use sqlite_proxy::entity::entities_of;
use sqlite_proxy::{
    row_to_entity, Column, Date, Entity, MappingError, QueryResult, Row, RowResult, Value,
};

fn names(columns: &[&str]) -> Vec<String> {
    columns.iter().map(|name| name.to_string()).collect()
}

fn all_columns() -> Vec<String> {
    names(&["id", "description", "due_date", "starred", "is_completed"])
}

fn text(value: &str) -> Value {
    Value::Text(value.to_string())
}

fn integer(value: i64) -> Value {
    Value::Integer(value)
}

fn map(columns: Vec<String>, values: Vec<Value>) -> Result<Entity, MappingError> {
    let result = RowResult { values };
    row_to_entity(Row { columns: &columns, result: &result })
}

#[test]
fn a_full_row_maps_to_its_entity() {
    let entity = map(
        all_columns(),
        vec![integer(7), text("buy milk"), text("2024-01-01"), integer(0), integer(1)],
    );
    assert_eq!(
        entity,
        Ok(Entity {
            id: 7,
            description: "buy milk".to_string(),
            due_date: Date::new(2024, 1, 1),
            starred: false,
            is_completed: true,
        })
    );
}

#[test]
fn a_row_without_description_is_missing_a_column() {
    let entity = map(
        names(&["id", "due_date", "starred", "is_completed"]),
        vec![integer(1), Value::Null, integer(0), integer(0)],
    );
    assert_eq!(entity, Err(MappingError::MissingColumn(Column::Description)));
}

#[test]
fn each_missing_column_is_named() {
    let full = vec![integer(1), text("d"), Value::Null, integer(0), integer(0)];
    let columns = [
        Column::Id,
        Column::Description,
        Column::DueDate,
        Column::Starred,
        Column::IsCompleted,
    ];
    for (position, column) in columns.iter().enumerate() {
        let mut kept = all_columns();
        kept.remove(position);
        let mut values = full.clone();
        values.remove(position);
        assert_eq!(map(kept, values), Err(MappingError::MissingColumn(*column)));
    }
}

#[test]
fn a_malformed_due_date_is_reported_with_its_text() {
    let entity = map(
        all_columns(),
        vec![integer(1), text("d"), text("2024-13-40"), integer(0), integer(0)],
    );
    assert_eq!(entity, Err(MappingError::MalformedDate("2024-13-40".to_string())));
}

#[test]
fn a_null_due_date_is_no_due_date() {
    let entity = map(
        all_columns(),
        vec![integer(1), text("d"), Value::Null, integer(0), integer(0)],
    )
    .unwrap();
    assert_eq!(entity.due_date, None);
}

#[test]
fn a_due_date_of_another_type_is_a_mismatch() {
    for value in [integer(20240101), Value::Real(1.0f64.to_bits()), Value::Blob(vec![1])] {
        let entity = map(
            all_columns(),
            vec![integer(1), text("d"), value, integer(0), integer(0)],
        );
        assert_eq!(entity, Err(MappingError::TypeMismatch(Column::DueDate)));
    }
}

#[test]
fn nothing_is_coerced() {
    let textual_id = map(
        all_columns(),
        vec![text("1"), text("d"), Value::Null, integer(0), integer(0)],
    );
    assert_eq!(textual_id, Err(MappingError::TypeMismatch(Column::Id)));
    let numeric_description = map(
        all_columns(),
        vec![integer(1), integer(5), Value::Null, integer(0), integer(0)],
    );
    assert_eq!(numeric_description, Err(MappingError::TypeMismatch(Column::Description)));
    let textual_flag = map(
        all_columns(),
        vec![integer(1), text("d"), Value::Null, text("0"), integer(0)],
    );
    assert_eq!(textual_flag, Err(MappingError::TypeMismatch(Column::Starred)));
    let null_flag = map(
        all_columns(),
        vec![integer(1), text("d"), Value::Null, integer(0), Value::Null],
    );
    assert_eq!(null_flag, Err(MappingError::TypeMismatch(Column::IsCompleted)));
    let real_id = map(
        all_columns(),
        vec![Value::Real(1.0f64.to_bits()), text("d"), Value::Null, integer(0), integer(0)],
    );
    assert_eq!(real_id, Err(MappingError::TypeMismatch(Column::Id)));
}

#[test]
fn an_identifier_must_fit() {
    let largest = map(
        all_columns(),
        vec![integer(4294967295), text("d"), Value::Null, integer(0), integer(0)],
    )
    .unwrap();
    assert_eq!(largest.id, u32::MAX);
    let too_large = map(
        all_columns(),
        vec![integer(4294967296), text("d"), Value::Null, integer(0), integer(0)],
    );
    assert_eq!(too_large, Err(MappingError::TypeMismatch(Column::Id)));
    let negative = map(
        all_columns(),
        vec![integer(-1), text("d"), Value::Null, integer(0), integer(0)],
    );
    assert_eq!(negative, Err(MappingError::TypeMismatch(Column::Id)));
}

#[test]
fn a_flag_is_set_by_any_integer_but_zero() {
    let entity = map(
        all_columns(),
        vec![integer(1), text("d"), Value::Null, integer(-3), integer(2)],
    )
    .unwrap();
    assert!(entity.starred);
    assert!(entity.is_completed);
}

#[test]
fn the_first_failure_is_the_one_reported() {
    let entity = map(
        names(&["id", "due_date"]),
        vec![text("x"), text("never")],
    );
    assert_eq!(entity, Err(MappingError::TypeMismatch(Column::Id)));
    let entity = map(
        names(&["id", "due_date", "description"]),
        vec![integer(1), text("never"), integer(2)],
    );
    assert_eq!(entity, Err(MappingError::TypeMismatch(Column::Description)));
}

#[test]
fn columns_are_found_by_name_in_any_order() {
    let entity = map(
        names(&["is_completed", "extra", "description", "starred", "id", "due_date"]),
        vec![
            integer(1),
            Value::Blob(vec![9]),
            text("walk"),
            integer(0),
            integer(3),
            text("2030-12-31"),
        ],
    )
    .unwrap();
    assert_eq!(entity.id, 3);
    assert_eq!(entity.description, "walk");
    assert_eq!(entity.due_date, Date::new(2030, 12, 31));
    assert!(!entity.starred);
    assert!(entity.is_completed);
}

#[test]
fn the_first_column_of_a_name_counts() {
    let columns = names(&["id", "id", "description", "due_date", "starred", "is_completed"]);
    let entity = map(
        columns,
        vec![integer(1), integer(2), text("d"), Value::Null, integer(0), integer(0)],
    )
    .unwrap();
    assert_eq!(entity.id, 1);
}

#[test]
fn a_name_is_matched_exactly() {
    let entity = map(
        names(&["ID", "description", "due_date", "starred", "is_completed"]),
        vec![integer(1), text("d"), Value::Null, integer(0), integer(0)],
    );
    assert_eq!(entity, Err(MappingError::MissingColumn(Column::Id)));
}

#[test]
fn a_row_that_ends_early_is_missing_the_rest() {
    let entity = map(all_columns(), vec![integer(1), text("d"), Value::Null]);
    assert_eq!(entity, Err(MappingError::MissingColumn(Column::Starred)));
    let row = RowResult { values: vec![integer(1)] };
    let columns = all_columns();
    let row = Row { columns: &columns, result: &row };
    assert_eq!(row.get(Column::Id), Some(&integer(1)));
    assert_eq!(row.get(Column::Description), None);
}

#[test]
fn a_row_is_mapped_the_same_way_each_time() {
    let columns = all_columns();
    let result = RowResult {
        values: vec![integer(1), text("d"), text("2024-02-29"), integer(1), integer(0)],
    };
    let first = row_to_entity(Row { columns: &columns, result: &result });
    let second = row_to_entity(Row { columns: &columns, result: &result });
    assert_eq!(first, second);
    assert!(first.is_ok());
}

#[test]
fn the_column_names_are_those_of_the_store() {
    assert_eq!(Column::Id.name(), "id");
    assert_eq!(Column::Description.name(), "description");
    assert_eq!(Column::DueDate.name(), "due_date");
    assert_eq!(Column::Starred.name(), "starred");
    assert_eq!(Column::IsCompleted.name(), "is_completed");
}

#[test]
fn every_row_of_a_result_is_mapped_in_order() {
    let result = QueryResult {
        columns: all_columns(),
        rows: vec![
            RowResult {
                values: vec![integer(2), text("b"), Value::Null, integer(0), integer(0)],
            },
            RowResult {
                values: vec![integer(1), text("a"), text("2024-01-01"), integer(1), integer(1)],
            },
        ],
    };
    let entities = entities_of(&result).unwrap();
    assert_eq!(entities.len(), 2);
    assert_eq!(entities[0].id, 2);
    assert_eq!(entities[1].id, 1);
    assert_eq!(entities[1].due_date, Date::new(2024, 1, 1));
    let none = QueryResult { columns: all_columns(), rows: Vec::new() };
    assert_eq!(entities_of(&none), Ok(Vec::new()));
}

#[test]
fn the_first_row_that_fails_decides() {
    let result = QueryResult {
        columns: all_columns(),
        rows: vec![
            RowResult {
                values: vec![integer(1), text("a"), Value::Null, integer(0), integer(0)],
            },
            RowResult {
                values: vec![integer(2), text("b"), text("soon"), integer(0), integer(0)],
            },
            RowResult {
                values: vec![text("3"), text("c"), Value::Null, integer(0), integer(0)],
            },
        ],
    };
    assert_eq!(entities_of(&result), Err(MappingError::MalformedDate("soon".to_string())));
}
