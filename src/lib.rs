//! Command layer of the duckdb plugin: typed request and response records,
//! the placeholder backend that answers them, the decoding of a request from
//! what its payload holds, and the keys and values of each response on the wire.
pub mod commands;
mod desktop;
mod error;
mod models;
mod wire;

pub use desktop::{executed_message, init, queried_message, Duckdb};
pub use error::{detail, kind_prefix, Error, Result};
pub use models::{
    ExecuteRequest, ExecuteResponse, PingRequest, PingResponse, QueryRequest, QueryResponse,
};
pub use wire::{
    decodes_execute, decodes_ping, decodes_query, decodes_required, fails_with, is_lower_camel,
    keys_lower_camel, lemma_malformed_query_rejected, lemma_wire_keys_lower_camel,
    missing_field, not_a_string, not_an_object, wire_opt_int, wire_opt_text, Member, WireValue,
};
