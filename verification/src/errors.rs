//! Pipeline-internal failures: the response they produce and the model of
//! an upstream error chain (an error and its chain of causes, outermost
//! first), from which the root cause and the timeout distinction are read.

use vstd::prelude::*;
use crate::json;
use crate::sanitize;

verus! {

/// A terminal pipeline failure, ready to be turned into an HTTP response:
/// the status code and the exact JSON body. The shell serves it with
/// `Content-Type: application/json` and `X-Delegate-Error: true`.
pub struct ErrorResponse {
    pub status: u16,
    pub body: String,
}

/// The response is exactly this status, kind and detail.
pub open spec fn error_says(e: ErrorResponse, status: int, kind: Seq<char>, detail: Seq<char>) -> bool {
    &&& e.status == status
    &&& e.body@ == json::json_error_body(kind, detail)
}

/// Builds the error response for a status code, an error kind and its
/// detail text, with the exact body `{"detail":...,"error":...}`.
pub fn error_response(status: u16, error: &str, detail: &str) -> (r: ErrorResponse)
    ensures
        r.status == status,
        r.body@ == json::json_error_body(error@, detail@),
{
    ErrorResponse { status, body: json::error_body(error, detail) }
}

/// One link of an upstream error chain: its message and whether it is one
/// of the two timeout shapes the transport can surface (an elapsed-timer
/// error, or an I/O error whose kind is timed-out).
pub struct ErrorLink {
    pub message: String,
    pub is_elapsed_timeout: bool,
    pub is_io_timed_out: bool,
}

/// Some link of the chain is a timeout.
pub open spec fn chain_has_timeout(links: Seq<ErrorLink>) -> bool {
    exists|i: int|
        0 <= i < links.len() && (links[i].is_elapsed_timeout || links[i].is_io_timed_out)
}

/// The message of the root cause: the innermost link of the chain.
pub fn root_error_message(links: &Vec<ErrorLink>) -> (r: String)
    requires
        links@.len() >= 1,
    ensures
        r@ == links@.last().message@,
{
    links[links.len() - 1].message.clone()
}

/// Whether the chain carries a timeout anywhere, however deeply wrapped.
pub fn is_timeout_error(links: &Vec<ErrorLink>) -> (r: bool)
    ensures
        r == chain_has_timeout(links@),
{
    let mut i: usize = 0;
    while i < links.len()
        invariant
            i <= links@.len(),
            forall|j: int|
                0 <= j < i ==> !(links@[j].is_elapsed_timeout || links@[j].is_io_timed_out),
        decreases links@.len() - i,
    {
        if links[i].is_elapsed_timeout || links[i].is_io_timed_out {
            return true;
        }
        i += 1;
    }
    false
}

/// The response for a failed upstream call: 504 when a timeout is anywhere
/// in the chain, 502 otherwise, with the root cause's message scrubbed of
/// full URLs as the detail.
pub fn upstream_failure_response(links: &Vec<ErrorLink>) -> (r: ErrorResponse)
    requires
        links@.len() >= 1,
    ensures
        r.status == (if chain_has_timeout(links@) {
            504u16
        } else {
            502u16
        }),
        r.body@ == (if chain_has_timeout(links@) {
            json::json_error_body("upstream_timeout"@, sanitize::scrub_message(links@.last().message@))
        } else {
            json::json_error_body(
                "upstream_connection_failed"@,
                sanitize::scrub_message(links@.last().message@),
            )
        }),
{
    let root = root_error_message(links);
    let safe_detail = sanitize::sanitize_upstream_error(root.as_str());
    if is_timeout_error(links) {
        error_response(504, "upstream_timeout", safe_detail.as_str())
    } else {
        error_response(502, "upstream_connection_failed", safe_detail.as_str())
    }
}

} // verus!
