use vstd::prelude::*;
use vstd::string::StringExecFns;

use crate::error::Result;
use crate::models::{
    ExecuteRequest, ExecuteResponse, PingRequest, PingResponse, QueryRequest, QueryResponse,
};

verus! {

/// Message with which the placeholder backend reports a statement as executed.
pub open spec fn executed_message(query: Seq<char>) -> Seq<char> {
    "Executed query: "@ + query
}

/// Message with which the placeholder backend reports a statement as queried.
pub open spec fn queried_message(query: Seq<char>) -> Seq<char> {
    "Queried: "@ + query
}

/// Creates the backend of a running host context.
pub fn init() -> (r: Result<Duckdb>)
    ensures
        r is Ok,
{
    Ok(Duckdb)
}

/// Access to the duckdb APIs: the placeholder backend, which carries out no
/// statement and keeps no state between calls.
#[derive(Debug, Clone, Copy, PartialEq, Eq)]
pub struct Duckdb;

impl Duckdb {
    /// Echoes the request's value, present or not.
    pub fn ping(&self, payload: PingRequest) -> (r: Result<PingResponse>)
        ensures
            r matches Ok(resp) && resp.value == payload.value,
    {
        Ok(PingResponse { value: payload.value })
    }

    /// Reports the statement as executed, with no row affected.
    pub fn execute(&self, payload: ExecuteRequest) -> (r: Result<ExecuteResponse>)
        ensures
            r matches Ok(resp) && resp.success && resp.message@ == executed_message(payload.query@)
                && resp.rows_affected == Some(0i32),
    {
        proof {
            reveal_strlit("Executed query: ");
        }
        Ok(ExecuteResponse {
            success: true,
            message: String::from_str("Executed query: ").concat(payload.query.as_str()),
            rows_affected: Some(0),
        })
    }

    /// Reports the statement as queried, with no row read.
    pub fn query(&self, payload: QueryRequest) -> (r: Result<QueryResponse>)
        ensures
            r is Ok,
            r->Ok_0.success,
            r->Ok_0.data@.len() == 0,
            r->Ok_0.message matches Some(m) && m@ == queried_message(payload.query@),
    {
        proof {
            reveal_strlit("Queried: ");
        }
        Ok(QueryResponse {
            success: true,
            data: Vec::new(),
            message: Some(String::from_str("Queried: ").concat(payload.query.as_str())),
        })
    }
}

} // verus!
