use vstd::prelude::*;
use vstd::string::StringExecFns;

use crate::error::{Error, Result};
use crate::models::{
    ExecuteRequest, ExecuteResponse, PingRequest, PingResponse, QueryRequest, QueryResponse,
};

verus! {

/// What a decoder sees of the one member that a request reads from the
/// host's JSON payload.
#[derive(Debug, Clone, PartialEq, Eq)]
pub enum Member {
    /// The payload is no JSON object.
    NotObject,
    /// The payload is an object without a member of that name.
    Absent,
    /// The member is `null`.
    Null,
    /// The member is a string.
    Text(String),
    /// The member is a number, a boolean, an array or an object.
    Other,
}

/// A value that an encoder writes under one key.
#[derive(Debug)]
pub enum WireValue {
    Null,
    Bool(bool),
    Int(i32),
    Text(String),
    Rows(Vec<serde_json::Value>),
}

/// A field name in lower camel case: an ASCII lower-case letter, then ASCII
/// letters and digits only.
pub open spec fn is_lower_camel(name: Seq<char>) -> bool {
    &&& name.len() > 0
    &&& 'a' <= name[0] && name[0] <= 'z'
    &&& forall|i: int|
        0 <= i < name.len() ==> ('a' <= #[trigger] name[i] && name[i] <= 'z') || ('A' <= name[i]
            && name[i] <= 'Z') || ('0' <= name[i] && name[i] <= '9')
}

/// Every key of an encoded record is in lower camel case.
pub open spec fn keys_lower_camel(fields: Seq<(String, WireValue)>) -> bool {
    forall|i: int| 0 <= i < fields.len() ==> is_lower_camel(#[trigger] fields[i].0@)
}

/// Detail of the error for a member that the request lacks.
pub open spec fn missing_field(key: Seq<char>) -> Seq<char> {
    "missing field `"@ + key + "`"@
}

/// Detail of the error for a member that holds no string.
pub open spec fn not_a_string(key: Seq<char>) -> Seq<char> {
    "invalid type for field `"@ + key + "`: expected a string"@
}

/// Detail of the error for a payload that is no JSON object.
pub open spec fn not_an_object() -> Seq<char> {
    "invalid type: expected a JSON object"@
}

/// `r` is a deserialization error with the given detail.
pub open spec fn fails_with<T>(r: Result<T>, detail: Seq<char>) -> bool {
    r matches Err(Error::Deserialization(m)) && m@ == detail
}

/// The `ping` request that a `value` member decodes to: absent and `null`
/// both mean no value.
pub open spec fn decodes_ping(value: Member, r: Result<PingRequest>) -> bool {
    match value {
        Member::NotObject => fails_with(r, not_an_object()),
        Member::Absent | Member::Null => r == Ok::<PingRequest, Error>(PingRequest { value: None }),
        Member::Text(s) => r == Ok::<PingRequest, Error>(PingRequest { value: Some(s) }),
        Member::Other => fails_with(r, not_a_string("value"@)),
    }
}

/// The text that a required member named `key` decodes to.
pub open spec fn decodes_required(key: Seq<char>, member: Member, r: Result<String>) -> bool {
    match member {
        Member::NotObject => fails_with(r, not_an_object()),
        Member::Text(s) => r == Ok::<String, Error>(s),
        Member::Absent => fails_with(r, missing_field(key)),
        _ => fails_with(r, not_a_string(key)),
    }
}

/// The `execute` request that a `query` member decodes to.
pub open spec fn decodes_execute(query: Member, r: Result<ExecuteRequest>) -> bool {
    match r {
        Ok(req) => decodes_required("query"@, query, Ok(req.query)),
        Err(e) => decodes_required("query"@, query, Err(e)),
    }
}

/// The `query` request that a `query` member decodes to.
pub open spec fn decodes_query(query: Member, r: Result<QueryRequest>) -> bool {
    match r {
        Ok(req) => decodes_required("query"@, query, Ok(req.query)),
        Err(e) => decodes_required("query"@, query, Err(e)),
    }
}

/// A request whose `query` member is missing or holds no string decodes to a
/// deserialization error, never to a request with a default statement.
pub proof fn lemma_malformed_query_rejected(
    query: Member,
    re: Result<ExecuteRequest>,
    rq: Result<QueryRequest>,
)
    requires
        !(query is Text),
        decodes_execute(query, re),
        decodes_query(query, rq),
    ensures
        re matches Err(Error::Deserialization(_)),
        rq matches Err(Error::Deserialization(_)),
{
}

/// Error for a payload that is no JSON object.
fn non_object_error<T>() -> (r: Result<T>)
    ensures
        fails_with(r, not_an_object()),
{
    proof {
        reveal_strlit("invalid type: expected a JSON object");
    }
    Err(Error::Deserialization(String::from_str("invalid type: expected a JSON object")))
}

/// Error for a member named `key` that holds no string.
fn not_a_string_error<T>(key: &str) -> (r: Result<T>)
    ensures
        fails_with(r, not_a_string(key@)),
{
    proof {
        reveal_strlit("invalid type for field `");
        reveal_strlit("`: expected a string");
    }
    Err(
        Error::Deserialization(
            String::from_str("invalid type for field `").concat(key).concat("`: expected a string"),
        ),
    )
}

/// Decodes the member `key` that a request requires to be a string.
fn required_text(key: &str, member: Member) -> (r: Result<String>)
    ensures
        decodes_required(key@, member, r),
{
    proof {
        reveal_strlit("missing field `");
        reveal_strlit("`");
    }
    match member {
        Member::NotObject => non_object_error(),
        Member::Text(s) => Ok(s),
        Member::Absent => Err(
            Error::Deserialization(String::from_str("missing field `").concat(key).concat("`")),
        ),
        _ => not_a_string_error(key),
    }
}

impl PingRequest {
    /// Builds the request from its `value` member.
    pub fn from_member(value: Member) -> (r: Result<PingRequest>)
        ensures
            decodes_ping(value, r),
    {
        proof {
            reveal_strlit("value");
        }
        match value {
            Member::NotObject => non_object_error(),
            Member::Absent | Member::Null => Ok(PingRequest { value: None }),
            Member::Text(s) => Ok(PingRequest { value: Some(s) }),
            Member::Other => not_a_string_error("value"),
        }
    }
}

impl ExecuteRequest {
    /// Builds the request from its `query` member, which it requires.
    pub fn from_member(query: Member) -> (r: Result<ExecuteRequest>)
        ensures
            decodes_execute(query, r),
    {
        proof {
            reveal_strlit("query");
        }
        match required_text("query", query) {
            Ok(q) => Ok(ExecuteRequest { query: q }),
            Err(e) => Err(e),
        }
    }
}

impl QueryRequest {
    /// Builds the request from its `query` member, which it requires.
    pub fn from_member(query: Member) -> (r: Result<QueryRequest>)
        ensures
            decodes_query(query, r),
    {
        proof {
            reveal_strlit("query");
        }
        match required_text("query", query) {
            Ok(q) => Ok(QueryRequest { query: q }),
            Err(e) => Err(e),
        }
    }
}

/// The wire value of an optional string: the string, or `null`.
pub open spec fn wire_opt_text(w: WireValue, v: Option<String>) -> bool {
    match v {
        Some(t) => w == WireValue::Text(t),
        None => w == WireValue::Null,
    }
}

/// The wire value of an optional integer: the integer, or `null`.
pub open spec fn wire_opt_int(w: WireValue, v: Option<i32>) -> bool {
    match v {
        Some(n) => w == WireValue::Int(n),
        None => w == WireValue::Null,
    }
}

/// The keys under which the records are written are in lower camel case.
pub proof fn lemma_wire_keys_lower_camel()
    ensures
        is_lower_camel("value"@),
        is_lower_camel("success"@),
        is_lower_camel("message"@),
        is_lower_camel("rowsAffected"@),
        is_lower_camel("data"@),
{
    reveal_strlit("value");
    reveal_strlit("success");
    reveal_strlit("message");
    reveal_strlit("rowsAffected");
    reveal_strlit("data");
}

fn opt_text(v: Option<String>) -> (r: WireValue)
    ensures
        wire_opt_text(r, v),
{
    match v {
        Some(t) => WireValue::Text(t),
        None => WireValue::Null,
    }
}

impl PingResponse {
    /// The members of the response on the wire, key by key.
    pub fn wire_fields(&self) -> (r: Vec<(String, WireValue)>)
        ensures
            r@.len() == 1,
            r@[0].0@ == "value"@,
            wire_opt_text(r@[0].1, self.value),
            keys_lower_camel(r@),
    {
        proof {
            lemma_wire_keys_lower_camel();
        }
        let mut r: Vec<(String, WireValue)> = Vec::new();
        r.push((String::from_str("value"), opt_text(self.value.clone())));
        r
    }
}

impl ExecuteResponse {
    /// The members of the response on the wire, key by key.
    pub fn wire_fields(&self) -> (r: Vec<(String, WireValue)>)
        ensures
            r@.len() == 3,
            r@[0].0@ == "success"@,
            r@[0].1 == WireValue::Bool(self.success),
            r@[1].0@ == "message"@,
            r@[1].1 == WireValue::Text(self.message),
            r@[2].0@ == "rowsAffected"@,
            wire_opt_int(r@[2].1, self.rows_affected),
            keys_lower_camel(r@),
    {
        proof {
            lemma_wire_keys_lower_camel();
        }
        let rows = match self.rows_affected {
            Some(n) => WireValue::Int(n),
            None => WireValue::Null,
        };
        let mut r: Vec<(String, WireValue)> = Vec::new();
        r.push((String::from_str("success"), WireValue::Bool(self.success)));
        r.push((String::from_str("message"), WireValue::Text(self.message.clone())));
        r.push((String::from_str("rowsAffected"), rows));
        r
    }
}

impl QueryResponse {
    /// The members of the response on the wire, key by key.
    pub fn into_wire_fields(self) -> (r: Vec<(String, WireValue)>)
        ensures
            r@.len() == 3,
            r@[0].0@ == "success"@,
            r@[0].1 == WireValue::Bool(self.success),
            r@[1].0@ == "data"@,
            r@[1].1 == WireValue::Rows(self.data),
            r@[2].0@ == "message"@,
            wire_opt_text(r@[2].1, self.message),
            keys_lower_camel(r@),
    {
        proof {
            lemma_wire_keys_lower_camel();
        }
        let mut r: Vec<(String, WireValue)> = Vec::new();
        r.push((String::from_str("success"), WireValue::Bool(self.success)));
        r.push((String::from_str("data"), WireValue::Rows(self.data)));
        r.push((String::from_str("message"), opt_text(self.message)));
        r
    }
}

} // verus!
