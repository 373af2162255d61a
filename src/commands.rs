use vstd::prelude::*;

use crate::desktop::{executed_message, queried_message, Duckdb};
use crate::error::{detail, kind_prefix, Error, Result};
use crate::models::{
    ExecuteRequest, ExecuteResponse, PingRequest, PingResponse, QueryRequest, QueryResponse,
};
use crate::wire::{decodes_execute, decodes_ping, decodes_query, Member};

verus! {

/// The answer to a `ping` whose payload shows `value`: the string echoed,
/// no value where it is absent or `null`, else the decoding's error.
pub open spec fn answers_ping(value: Member, r: Result<PingResponse>) -> bool {
    match value {
        Member::Text(s) => r == Ok::<PingResponse, Error>(PingResponse { value: Some(s) }),
        Member::Absent | Member::Null => r == Ok::<PingResponse, Error>(
            PingResponse { value: None },
        ),
        _ => r matches Err(e) && decodes_ping(value, Err(e)),
    }
}

/// The answer to an `execute` whose payload shows `query`: the placeholder
/// report for a string, else the decoding's error.
pub open spec fn answers_execute(query: Member, r: Result<ExecuteResponse>) -> bool {
    match query {
        Member::Text(s) => r matches Ok(resp) && resp.success && resp.message@ == executed_message(
            s@,
        ) && resp.rows_affected == Some(0i32),
        _ => r matches Err(e) && decodes_execute(query, Err(e)),
    }
}

/// The answer to a `query` whose payload shows `query`: the placeholder
/// report with no rows for a string, else the decoding's error.
pub open spec fn answers_query(query: Member, r: Result<QueryResponse>) -> bool {
    match query {
        Member::Text(s) => r matches Ok(resp) && resp.success && resp.data@.len() == 0
            && opt_view(resp.message) == Some(queried_message(s@)),
        _ => r matches Err(e) && decodes_query(query, Err(e)),
    }
}

/// Answers the host's `ping`: decodes the `value` member and hands the
/// request to the backend.
pub fn ping(backend: &Duckdb, value: Member) -> (r: Result<PingResponse>)
    ensures
        answers_ping(value, r),
        (value is NotObject || value is Other) ==> r matches Err(Error::Deserialization(_)),
{
    match PingRequest::from_member(value) {
        Ok(req) => backend.ping(req),
        Err(e) => Err(e),
    }
}

/// Answers the host's `execute`: decodes the `query` member and hands the
/// request to the backend.
pub fn execute(backend: &Duckdb, query: Member) -> (r: Result<ExecuteResponse>)
    ensures
        answers_execute(query, r),
        !(query is Text) ==> r matches Err(Error::Deserialization(_)),
{
    match ExecuteRequest::from_member(query) {
        Ok(req) => backend.execute(req),
        Err(e) => Err(e),
    }
}

/// Answers the host's `query`: decodes the `query` member and hands the
/// request to the backend.
pub fn query(backend: &Duckdb, statement: Member) -> (r: Result<QueryResponse>)
    ensures
        answers_query(statement, r),
        !(statement is Text) ==> r matches Err(Error::Deserialization(_)),
{
    match QueryRequest::from_member(statement) {
        Ok(req) => backend.query(req),
        Err(e) => Err(e),
    }
}

/// What the host can observe of an error: its kind and its detail.
pub open spec fn error_view(e: Error) -> (Seq<char>, Seq<char>) {
    (kind_prefix(e), detail(e))
}

/// An optional string, as characters.
pub open spec fn opt_view(o: Option<String>) -> Option<Seq<char>> {
    match o {
        Some(s) => Some(s@),
        None => None,
    }
}

/// What the host can observe of a `ping` answer.
pub open spec fn ping_view(r: Result<PingResponse>) -> core::result::Result<
    Option<Seq<char>>,
    (Seq<char>, Seq<char>),
> {
    match r {
        Ok(resp) => Ok(opt_view(resp.value)),
        Err(e) => Err(error_view(e)),
    }
}

/// What the host can observe of an `execute` answer.
pub open spec fn execute_view(r: Result<ExecuteResponse>) -> core::result::Result<
    (bool, Seq<char>, Option<i32>),
    (Seq<char>, Seq<char>),
> {
    match r {
        Ok(resp) => Ok((resp.success, resp.message@, resp.rows_affected)),
        Err(e) => Err(error_view(e)),
    }
}

/// What the host can observe of a `query` answer.
pub open spec fn query_view(r: Result<QueryResponse>) -> core::result::Result<
    (bool, Seq<serde_json::Value>, Option<Seq<char>>),
    (Seq<char>, Seq<char>),
> {
    match r {
        Ok(resp) => Ok((resp.success, resp.data@, opt_view(resp.message))),
        Err(e) => Err(error_view(e)),
    }
}

/// No state crosses calls: two answers to the same payload agree, whatever
/// calls, failed or not, came between them.
pub proof fn lemma_answers_repeatable(
    value: Member,
    p1: Result<PingResponse>,
    p2: Result<PingResponse>,
    x: Member,
    e1: Result<ExecuteResponse>,
    e2: Result<ExecuteResponse>,
    q: Member,
    q1: Result<QueryResponse>,
    q2: Result<QueryResponse>,
)
    requires
        answers_ping(value, p1),
        answers_ping(value, p2),
        answers_execute(x, e1),
        answers_execute(x, e2),
        answers_query(q, q1),
        answers_query(q, q2),
    ensures
        ping_view(p1) == ping_view(p2),
        execute_view(e1) == execute_view(e2),
        query_view(q1) == query_view(q2),
{
    if q is Text {
        assert(q1->Ok_0.data@ =~= q2->Ok_0.data@);
    }
}

} // verus!
