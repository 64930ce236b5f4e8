use sqlite_proxy::repository::{
    create, create_request, create_response, delete, delete_request, list, list_request,
    list_response, update, update_request, write_response, DELETE, INSERT, SELECT, UPDATE,
};
use std::cell::RefCell;
use sqlite_proxy::{
    Column, Date, Entity, MappingError, NewEntity, QueryResult, RepositoryError, RowResult,
    StoreError, ValidationError, Value,
};

fn today() -> Date {
    Date::new(2024, 6, 15).unwrap()
}

fn returned(values: Vec<Value>) -> QueryResult {
    QueryResult { columns: vec!["id".to_string()], rows: vec![RowResult { values }] }
}

fn milk() -> NewEntity {
    NewEntity::new(Some("buy milk".to_string()), Date::new(2024, 1, 1)).unwrap()
}

#[test]
fn list_selects_everything_without_filters() {
    let statement = list_request(None, None, &today());
    assert_eq!(statement.text, "SELECT * FROM entities ;");
    assert!(statement.parameters.is_empty());
}

#[test]
fn list_appends_the_predicate() {
    let statement = list_request(Some(true), Some(false), &today());
    assert_eq!(
        statement.text,
        "SELECT * FROM entities WHERE due_date <= '2024-06-15' AND is_completed == FALSE;"
    );
    assert!(statement.parameters.is_empty());
    let statement = list_request(Some(false), None, &today());
    assert_eq!(
        statement.text,
        "SELECT * FROM entities WHERE (due_date > '2024-06-15' OR due_date is NULL);"
    );
    assert!(statement.text.starts_with(SELECT));
}

#[test]
fn list_maps_the_rows_that_came_back() {
    let result = QueryResult {
        columns: vec![
            "id".to_string(),
            "description".to_string(),
            "due_date".to_string(),
            "starred".to_string(),
            "is_completed".to_string(),
        ],
        rows: vec![RowResult {
            values: vec![
                Value::Integer(4),
                Value::Text("call".to_string()),
                Value::Null,
                Value::Integer(0),
                Value::Integer(1),
            ],
        }],
    };
    assert_eq!(
        list_response(Ok(result)),
        Ok(vec![Entity {
            id: 4,
            description: "call".to_string(),
            due_date: None,
            starred: false,
            is_completed: true,
        }])
    );
}

#[test]
fn list_hands_failures_on() {
    assert_eq!(
        list_response(Err(StoreError::InvalidConnection)),
        Err(RepositoryError::Store(StoreError::InvalidConnection))
    );
    let result = QueryResult {
        columns: vec!["id".to_string()],
        rows: vec![RowResult { values: vec![Value::Integer(1)] }],
    };
    assert_eq!(
        list_response(Ok(result)),
        Err(RepositoryError::Mapping(MappingError::MissingColumn(Column::Description)))
    );
}

#[test]
fn a_description_must_be_supplied() {
    assert_eq!(NewEntity::new(None, None), Err(ValidationError::MissingDescription));
    assert_eq!(
        NewEntity::new(None, Date::new(2024, 1, 1)),
        Err(ValidationError::MissingDescription)
    );
    assert_eq!(
        NewEntity::new(Some(String::new()), None),
        Err(ValidationError::MissingDescription)
    );
    let new = NewEntity::new(Some("x".to_string()), None).unwrap();
    assert_eq!(new.description(), "x");
    assert_eq!(new.due_date(), None);
}

#[test]
fn create_binds_description_and_due_date() {
    let statement = create_request(&milk());
    assert_eq!(statement.text, INSERT);
    assert_eq!(
        statement.text,
        "INSERT INTO entities (description, due_date) VALUES(?, ?) RETURNING id;"
    );
    assert_eq!(
        statement.parameters,
        vec![Value::Text("buy milk".to_string()), Value::Text("2024-01-01".to_string())]
    );
}

#[test]
fn create_binds_null_for_no_due_date() {
    let new = NewEntity::new(Some("it's \"quoted\"; DROP".to_string()), None).unwrap();
    let statement = create_request(&new);
    assert_eq!(statement.text, INSERT);
    assert_eq!(
        statement.parameters,
        vec![Value::Text("it's \"quoted\"; DROP".to_string()), Value::Null]
    );
}

#[test]
fn create_returns_the_entity_with_the_identifier_of_the_store() {
    let entity = create_response(milk(), Ok(returned(vec![Value::Integer(12)])));
    assert_eq!(
        entity,
        Ok(Entity {
            id: 12,
            description: "buy milk".to_string(),
            due_date: Date::new(2024, 1, 1),
            starred: false,
            is_completed: false,
        })
    );
}

#[test]
fn create_fails_without_an_identifier_row() {
    let none = QueryResult { columns: vec!["id".to_string()], rows: Vec::new() };
    assert_eq!(create_response(milk(), Ok(none)), Err(RepositoryError::CreationFailed));
    assert_eq!(
        create_response(milk(), Ok(returned(Vec::new()))),
        Err(RepositoryError::CreationFailed)
    );
}

#[test]
fn create_refuses_what_is_no_identifier() {
    for value in [
        Value::Text("12".to_string()),
        Value::Null,
        Value::Integer(-1),
        Value::Integer(4294967296),
        Value::Real(12.0f64.to_bits()),
    ] {
        assert_eq!(
            create_response(milk(), Ok(returned(vec![value]))),
            Err(RepositoryError::Mapping(MappingError::TypeMismatch(Column::Id)))
        );
    }
}

#[test]
fn create_hands_failures_on() {
    assert_eq!(
        create_response(milk(), Err(StoreError::StoreFull)),
        Err(RepositoryError::Store(StoreError::StoreFull))
    );
    assert_eq!(
        create_response(milk(), Err(StoreError::Io("locked".to_string()))),
        Err(RepositoryError::Store(StoreError::Io("locked".to_string())))
    );
}

#[test]
fn update_binds_flag_and_identifier() {
    let statement = update_request("15", true).unwrap();
    assert_eq!(statement.text, UPDATE);
    assert_eq!(statement.text, "UPDATE entities SET is_completed = (?) WHERE ID = (?);");
    assert_eq!(statement.parameters, vec![Value::Integer(1), Value::Integer(15)]);
    let statement = update_request("4294967295", false).unwrap();
    assert_eq!(statement.parameters, vec![Value::Integer(0), Value::Integer(4294967295)]);
}

#[test]
fn update_refuses_an_identifier_that_is_no_number() {
    assert_eq!(
        update_request("abc", true),
        Err(ValidationError::InvalidIdentifier("abc".to_string()))
    );
    assert_eq!(update_request("", false), Err(ValidationError::InvalidIdentifier(String::new())));
    assert_eq!(
        update_request("1; DROP TABLE entities", true),
        Err(ValidationError::InvalidIdentifier("1; DROP TABLE entities".to_string()))
    );
    assert_eq!(
        update_request("-3", true),
        Err(ValidationError::InvalidIdentifier("-3".to_string()))
    );
}

#[test]
fn delete_binds_the_identifier() {
    let statement = delete_request("8").unwrap();
    assert_eq!(statement.text, DELETE);
    assert_eq!(statement.text, "DELETE FROM entities WHERE ID = (?);");
    assert_eq!(statement.parameters, vec![Value::Integer(8)]);
}

#[test]
fn delete_refuses_an_identifier_that_is_no_number() {
    assert_eq!(
        delete_request("eight"),
        Err(ValidationError::InvalidIdentifier("eight".to_string()))
    );
    assert_eq!(
        delete_request("4294967296"),
        Err(ValidationError::InvalidIdentifier("4294967296".to_string()))
    );
}

#[test]
fn a_write_has_no_content() {
    let empty = QueryResult { columns: Vec::new(), rows: Vec::new() };
    assert_eq!(write_response(Ok(empty)), Ok(()));
    assert_eq!(write_response(Ok(returned(vec![Value::Integer(1)]))), Ok(()));
    assert_eq!(
        write_response(Err(StoreError::AccessDenied)),
        Err(RepositoryError::Store(StoreError::AccessDenied))
    );
}

#[test]
fn update_with_an_identifier_that_is_no_number_never_asks_the_store() {
    let asked = RefCell::new(0);
    let outcome = update("not-a-number", true, |_statement| {
        *asked.borrow_mut() += 1;
        Ok(QueryResult { columns: Vec::new(), rows: Vec::new() })
    });
    assert_eq!(
        outcome,
        Err(RepositoryError::Validation(ValidationError::InvalidIdentifier(
            "not-a-number".to_string()
        )))
    );
    assert_eq!(*asked.borrow(), 0);
}

#[test]
fn delete_with_an_identifier_that_is_no_number_never_asks_the_store() {
    let asked = RefCell::new(0);
    let outcome = delete("", |_statement| {
        *asked.borrow_mut() += 1;
        Ok(QueryResult { columns: Vec::new(), rows: Vec::new() })
    });
    assert_eq!(
        outcome,
        Err(RepositoryError::Validation(ValidationError::InvalidIdentifier(String::new())))
    );
    assert_eq!(*asked.borrow(), 0);
}

#[test]
fn create_without_a_description_never_asks_the_store() {
    let asked = RefCell::new(0);
    let outcome = create(None, Date::new(2024, 1, 1), |_statement| {
        *asked.borrow_mut() += 1;
        Ok(returned(vec![Value::Integer(1)]))
    });
    assert_eq!(
        outcome,
        Err(RepositoryError::Validation(ValidationError::MissingDescription))
    );
    assert_eq!(*asked.borrow(), 0);
}

#[test]
fn every_operation_asks_the_store_once() {
    let sent = RefCell::new(Vec::new());
    let today = today();
    let listed = list(Some(true), None, &today, |statement| {
        sent.borrow_mut().push(statement.text);
        Ok(QueryResult { columns: Vec::new(), rows: Vec::new() })
    });
    assert_eq!(listed, Ok(Vec::new()));
    let created = create(Some("buy milk".to_string()), None, |statement| {
        sent.borrow_mut().push(statement.text);
        Ok(returned(vec![Value::Integer(3)]))
    });
    assert_eq!(created.unwrap().id, 3);
    let updated = update("3", true, |statement| {
        sent.borrow_mut().push(statement.text);
        Ok(QueryResult { columns: Vec::new(), rows: Vec::new() })
    });
    assert_eq!(updated, Ok(()));
    let deleted = delete("3", |statement| {
        sent.borrow_mut().push(statement.text);
        Ok(QueryResult { columns: Vec::new(), rows: Vec::new() })
    });
    assert_eq!(deleted, Ok(()));
    assert_eq!(
        *sent.borrow(),
        vec![
            "SELECT * FROM entities WHERE due_date <= '2024-06-15';".to_string(),
            INSERT.to_string(),
            UPDATE.to_string(),
            DELETE.to_string(),
        ]
    );
}

#[test]
fn an_operation_hands_the_failure_of_the_store_on() {
    let today = today();
    assert_eq!(
        list(None, None, &today, |_statement| Err(StoreError::AccessDenied)),
        Err(RepositoryError::Store(StoreError::AccessDenied))
    );
    assert_eq!(
        create(Some("x".to_string()), None, |_statement| Err(StoreError::StoreFull)),
        Err(RepositoryError::Store(StoreError::StoreFull))
    );
    assert_eq!(
        update("1", false, |_statement| Err(StoreError::InvalidConnection)),
        Err(RepositoryError::Store(StoreError::InvalidConnection))
    );
    assert_eq!(
        delete("1", |_statement| Err(StoreError::Io("gone".to_string()))),
        Err(RepositoryError::Store(StoreError::Io("gone".to_string())))
    );
}

#[test]
fn update_hands_the_bound_values_to_the_store() {
    let seen = RefCell::new(Vec::new());
    let outcome = update("42", true, |statement| {
        seen.borrow_mut().extend(statement.parameters);
        Ok(QueryResult { columns: Vec::new(), rows: Vec::new() })
    });
    assert_eq!(outcome, Ok(()));
    assert_eq!(*seen.borrow(), vec![Value::Integer(1), Value::Integer(42)]);
}
