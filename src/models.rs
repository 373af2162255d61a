use vstd::prelude::*;

verus! {

/// Opaque JSON value of the host, carried in result rows.
#[verifier::external_type_specification]
#[verifier::external_body]
pub struct ExJsonValue(serde_json::Value);

/// Request of the `ping` call.
#[derive(Debug, Clone, PartialEq, Eq)]
pub struct PingRequest {
    pub value: Option<String>,
}

/// Response of the `ping` call: the request's value, echoed.
#[derive(Debug, Clone, Default, PartialEq, Eq)]
pub struct PingResponse {
    pub value: Option<String>,
}

/// Request of the `execute` call: a statement that changes data.
#[derive(Debug, Clone, PartialEq, Eq)]
pub struct ExecuteRequest {
    pub query: String,
}

/// Response of the `execute` call.
#[derive(Debug, Clone, PartialEq, Eq)]
pub struct ExecuteResponse {
    pub success: bool,
    pub message: String,
    pub rows_affected: Option<i32>,
}

/// Request of the `query` call: a statement that reads data.
#[derive(Debug, Clone, PartialEq, Eq)]
pub struct QueryRequest {
    pub query: String,
}

/// Response of the `query` call: the rows read, as JSON values.
#[derive(Debug)]
pub struct QueryResponse {
    pub success: bool,
    pub data: Vec<serde_json::Value>,
    pub message: Option<String>,
}

} // verus!
