use sqlite_proxy::proxy::{outcome_to_foreign, request};
use sqlite_proxy::{
    ForeignError, ForeignQueryResult, ForeignRowResult, ForeignValue, ProxyConnection,
    QueryResult, RowResult, Statement, StoreError, Value,
};
use std::cell::RefCell;

fn nothing() -> Result<QueryResult, StoreError> {
    Ok(QueryResult { columns: Vec::new(), rows: Vec::new() })
}

#[test]
fn open_wraps_the_handle() {
    let proxy = ProxyConnection::open("default".to_string(), |_name| Ok(17u8)).unwrap();
    assert_eq!(proxy.0, 17);
}

#[test]
fn open_hands_the_name_on_as_it_is() {
    let names = RefCell::new(Vec::new());
    let proxy = ProxyConnection::open("my store".to_string(), |name| {
        names.borrow_mut().push(name);
        Ok(())
    });
    assert!(proxy.is_ok());
    assert_eq!(*names.borrow(), vec!["my store".to_string()]);
}

#[test]
fn open_rewrites_the_failure() {
    let refused =
        ProxyConnection::<u8>::open("a".to_string(), |_name| Err(StoreError::NoSuchStore));
    assert!(matches!(refused, Err(ForeignError::NoSuchStore)));
    let denied =
        ProxyConnection::<u8>::open("b".to_string(), |_name| Err(StoreError::AccessDenied));
    assert!(matches!(denied, Err(ForeignError::AccessDenied)));
    let failed = ProxyConnection::<u8>::open("c".to_string(), |_name| {
        Err(StoreError::Io("no file".to_string()))
    });
    match failed {
        Err(ForeignError::Io(message)) => assert_eq!(message, "no file"),
        _ => panic!("not an I/O failure"),
    }
}

#[test]
fn a_request_keeps_the_text_and_the_order_of_the_parameters() {
    let statement = request(
        "SELECT ?, ?, ?, ?".to_string(),
        vec![
            ForeignValue::Text("b".to_string()),
            ForeignValue::Integer(1),
            ForeignValue::Null,
            ForeignValue::Blob(vec![2, 3]),
        ],
    );
    assert_eq!(statement.text, "SELECT ?, ?, ?, ?");
    assert_eq!(
        statement.parameters,
        vec![
            Value::Text("b".to_string()),
            Value::Integer(1),
            Value::Null,
            Value::Blob(vec![2, 3]),
        ]
    );
}

#[test]
fn a_request_without_parameters_binds_nothing() {
    let statement = request(String::new(), Vec::new());
    assert_eq!(statement.text, "");
    assert!(statement.parameters.is_empty());
}

#[test]
fn execute_asks_the_wrapped_connection_once() {
    let proxy = ProxyConnection(5u8);
    let seen: RefCell<Vec<(u8, Statement)>> = RefCell::new(Vec::new());
    let answer = proxy.execute(
        "DELETE FROM t WHERE a = ? AND b = ?".to_string(),
        vec![ForeignValue::Integer(2), ForeignValue::Text("x".to_string())],
        |connection, statement| {
            seen.borrow_mut().push((*connection, statement));
            nothing()
        },
    );
    assert_eq!(answer, Ok(ForeignQueryResult { columns: Vec::new(), rows: Vec::new() }));
    assert_eq!(
        *seen.borrow(),
        vec![(
            5,
            Statement {
                text: "DELETE FROM t WHERE a = ? AND b = ?".to_string(),
                parameters: vec![Value::Integer(2), Value::Text("x".to_string())],
            }
        )]
    );
}

#[test]
fn execute_rewrites_the_result() {
    let proxy = ProxyConnection(());
    let answer = proxy.execute("SELECT a, b FROM t".to_string(), Vec::new(), |_, _| {
        Ok(QueryResult {
            columns: vec!["a".to_string(), "b".to_string()],
            rows: vec![
                RowResult { values: vec![Value::Real(0.5f64.to_bits()), Value::Null] },
                RowResult { values: vec![Value::Integer(3), Value::Text("x".to_string())] },
            ],
        })
    });
    assert_eq!(
        answer,
        Ok(ForeignQueryResult {
            columns: vec!["a".to_string(), "b".to_string()],
            rows: vec![
                ForeignRowResult {
                    values: vec![ForeignValue::Real(0.5f64.to_bits()), ForeignValue::Null],
                },
                ForeignRowResult {
                    values: vec![ForeignValue::Integer(3), ForeignValue::Text("x".to_string())],
                },
            ],
        })
    );
}

#[test]
fn execute_rewrites_the_failure() {
    let proxy = ProxyConnection(());
    let full = proxy.execute(String::new(), Vec::new(), |_, _| Err(StoreError::StoreFull));
    assert_eq!(full, Err(ForeignError::StoreFull));
    assert_eq!(
        outcome_to_foreign(Err(StoreError::Io("busy".to_string()))),
        Err(ForeignError::Io("busy".to_string()))
    );
    assert_eq!(
        outcome_to_foreign(Err(StoreError::InvalidConnection)),
        Err(ForeignError::InvalidConnection)
    );
}
