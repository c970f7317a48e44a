//! The structured records that surround one execution: one before the
//! request is dispatched, one after a response arrives. The core only
//! defines what the records carry; collecting them is an observability
//! concern outside this crate, and header contents never appear in them.
use vstd::prelude::*;
use crate::message::{Request, Response};

verus! {

/// Record built before a request is dispatched: its URI, its method, and
/// the length of its body.
#[derive(Debug, Clone, PartialEq, Eq)]
pub struct SendingRequestEvent {
    pub uri: String,
    pub method: String,
    pub body_len: usize,
}

/// Record built after a response arrives: its status, the length of its
/// body, and an informational flag for the standard client-error and
/// server-error status classes. The flag is independent of the success
/// range used for validation, and the two disagree on some codes.
#[derive(Debug, Clone, PartialEq, Eq)]
pub struct ResponseReceivedEvent {
    pub status: u16,
    pub response_len: usize,
    pub is_error: bool,
}

/// Whether a status code belongs to the standard client-error class (4xx)
/// or server-error class (5xx).
pub open spec fn is_error_class(code: u16) -> bool {
    400 <= code <= 599
}

/// Builds the record for a request about to be dispatched. Reads the
/// request without consuming or changing it.
pub fn sending_request_event(req: &Request) -> (e: SendingRequestEvent)
    ensures
        e.uri@ == req.uri@,
        e.method@ == req.method@,
        e.body_len == req.body@.len(),
{
    SendingRequestEvent { uri: req.uri.clone(), method: req.method.clone(), body_len: req.body.len() }
}

/// Builds the record for a response that arrived. The error flag reports
/// the 4xx/5xx classes exactly, whatever the success range says.
pub fn response_received_event(resp: &Response) -> (e: ResponseReceivedEvent)
    ensures
        e.status == resp.status,
        e.response_len == resp.body@.len(),
        e.is_error == is_error_class(resp.status),
{
    ResponseReceivedEvent {
        status: resp.status,
        response_len: resp.body.len(),
        is_error: 400 <= resp.status && resp.status <= 599,
    }
}

} // verus!
