//! Finding the identifier under which a request can be traced.
//!
//! The context that comes with an invocation differs with the kind of
//! gateway that made it. Two kinds carry a request identifier; for every
//! other kind, and where the gateway left the field out, there is none.
//! Looking for the identifier never fails.

use crate::outcome::optional_text;
use vstd::prelude::*;

verus! {

/// What an invocation says of where it came from, as far as the request
/// identifier is concerned.
#[derive(Debug)]
pub enum InvocationContext {
    /// A REST gateway's context.
    ApiGatewayV1 { request_id: Option<String> },
    /// An HTTP gateway's context.
    ApiGatewayV2 { request_id: Option<String> },
    /// Any other context.
    Other,
}

/// The request identifier that `context` carries, if it carries one.
pub open spec fn correlation_of(context: InvocationContext) -> Option<Seq<char>> {
    match context {
        InvocationContext::ApiGatewayV1 { request_id } => optional_text(request_id),
        InvocationContext::ApiGatewayV2 { request_id } => optional_text(request_id),
        InvocationContext::Other => None,
    }
}

/// A copy of an optional string.
pub fn clone_optional(text: &Option<String>) -> (copy: Option<String>)
    ensures
        optional_text(copy) == optional_text(*text),
{
    match text {
        Some(t) => Some(t.clone()),
        None => None,
    }
}

/// The request identifier of an invocation, taken from its context.
pub fn resolve_correlation_id(context: InvocationContext) -> (id: Option<String>)
    ensures
        optional_text(id) == correlation_of(context),
{
    match context {
        InvocationContext::ApiGatewayV1 { request_id } => request_id,
        InvocationContext::ApiGatewayV2 { request_id } => request_id,
        InvocationContext::Other => None,
    }
}

} // verus!
