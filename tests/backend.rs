use tauri_plugin_duckdb::{
    init, Duckdb, Error, ExecuteRequest, PingRequest, PingResponse, QueryRequest,
};

fn backend() -> Duckdb {
    init().expect("the backend is created")
}

#[test]
fn ping_echoes_value() {
    let r = backend().ping(PingRequest { value: Some("hello".to_string()) });
    assert_eq!(r, Ok(PingResponse { value: Some("hello".to_string()) }));
}

#[test]
fn ping_echoes_absent_value() {
    let r = backend().ping(PingRequest { value: None });
    assert_eq!(r, Ok(PingResponse { value: None }));
}

#[test]
fn ping_echoes_empty_value() {
    let r = backend().ping(PingRequest { value: Some(String::new()) });
    assert_eq!(r, Ok(PingResponse { value: Some(String::new()) }));
}

#[test]
fn execute_reports_placeholder_success() {
    let r = backend()
        .execute(ExecuteRequest { query: "anything".to_string() })
        .expect("execute succeeds");
    assert!(r.success);
    assert_eq!(r.message, "Executed query: anything");
    assert_eq!(r.rows_affected, Some(0));
}

#[test]
fn execute_with_empty_statement() {
    let r = backend().execute(ExecuteRequest { query: String::new() }).unwrap();
    assert!(r.success);
    assert_eq!(r.message, "Executed query: ");
    assert_eq!(r.rows_affected, Some(0));
}

#[test]
fn query_reports_placeholder_success() {
    let r = backend()
        .query(QueryRequest { query: "anything".to_string() })
        .expect("query succeeds");
    assert!(r.success);
    assert!(r.data.is_empty());
    assert_eq!(r.message, Some("Queried: anything".to_string()));
}

#[test]
fn query_select_one() {
    let r = backend().query(QueryRequest { query: "SELECT 1".to_string() }).unwrap();
    assert!(r.success);
    assert!(r.data.is_empty());
    assert_eq!(r.message.as_deref(), Some("Queried: SELECT 1"));
}

#[test]
fn error_messages_name_their_kind() {
    let d = Error::Deserialization("missing field `query`".to_string());
    assert_eq!(d.message(), "deserialization error: missing field `query`");
    let b = Error::Backend("no such table".to_string());
    assert_eq!(b.message(), "backend error: no such table");
}
