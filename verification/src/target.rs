//! Target resolution and gating: the host and port a delegation points at,
//! the destination validator's decision, and the syntactic checks on the
//! method token and the target URI.

use vstd::prelude::*;
use vstd::string::StringExecFns;
use crate::errors;
use crate::errors::ErrorResponse;

verus! {

/// Whether a text parses as an absolute URL.
pub uninterp spec fn url_parse_ok(s: Seq<char>) -> bool;

/// The display text of the parse error for a text that does not parse.
pub uninterp spec fn url_parse_err_msg(s: Seq<char>) -> Seq<char>;

/// The host of a URL text that parses, if it has one.
pub uninterp spec fn url_host(s: Seq<char>) -> Option<Seq<char>>;

/// The explicit port of a URL text that parses, or its scheme's default.
pub uninterp spec fn url_port_or_default(s: Seq<char>) -> Option<u16>;

/// Plain-value pieces read from a parsed target URL.
pub struct UrlParts {
    pub host: Option<String>,
    pub port_or_default: Option<u16>,
}

/// Relies on url's `Url::parse`, `Url::host_str` and
/// `Url::port_or_known_default`: each outcome, and the display text of the
/// parse error, is a function of the URL text alone.
#[verifier::external_body]
fn parse_url_parts(s: &str) -> (r: Result<UrlParts, String>)
    ensures
        r is Ok <==> url_parse_ok(s@),
        r matches Ok(p) ==> url_host(s@) == (match p.host {
            Some(h) => Some(h@),
            None => None::<Seq<char>>,
        }) && url_port_or_default(s@) == p.port_or_default,
        r matches Err(m) ==> m@ == url_parse_err_msg(s@),
{
    match url::Url::parse(s) {
        Ok(u) => Ok(
            UrlParts {
                host: u.host_str().map(|h| h.to_string()),
                port_or_default: u.port_or_known_default(),
            },
        ),
        Err(e) => Err(e.to_string()),
    }
}

/// The delegation target: the host and the port that destination
/// validation judges.
pub struct TargetAddr {
    pub host: String,
    pub port: u16,
}

/// Parses the target URL and resolves what to validate: the URL's host,
/// and its explicit port, its scheme's default, or 443 when the scheme has
/// no default. A URL that does not parse, or parses without a host, is a
/// 400 before anything is looked up or dialled.
pub fn resolve_target(target_url: &str) -> (r: Result<TargetAddr, ErrorResponse>)
    ensures
        r is Ok <==> url_parse_ok(target_url@) && url_host(target_url@) is Some,
        !url_parse_ok(target_url@) ==> r is Err && errors::error_says(
            r->Err_0,
            400,
            "bad_request"@,
            "invalid URL: "@ + url_parse_err_msg(target_url@),
        ),
        url_parse_ok(target_url@) && url_host(target_url@) is None ==> r is Err
            && errors::error_says(r->Err_0, 400, "bad_request"@, "URL missing host"@),
        r matches Ok(t) ==> Some(t.host@) == url_host(target_url@) && t.port == (
        match url_port_or_default(target_url@) {
            Some(p) => p,
            None => 443u16,
        }),
{
    let parts = match parse_url_parts(target_url) {
        Ok(p) => p,
        Err(m) => {
            let mut detail = String::from_str("invalid URL: ");
            detail.append(m.as_str());
            return Err(errors::error_response(400, "bad_request", detail.as_str()));
        },
    };
    let host = match parts.host {
        Some(h) => h,
        None => {
            return Err(errors::error_response(400, "bad_request", "URL missing host"));
        },
    };
    let port = match parts.port_or_default {
        Some(p) => p,
        None => 443,
    };
    Ok(TargetAddr { host, port })
}

/// Maps the destination validator's decision. A rejection is terminal: 403,
/// with the rejection reason verbatim as the detail (the reason is built by
/// the validator out of safe material and is never scrubbed here).
pub fn on_target_validation(outcome: &Result<(), String>) -> (r: Result<(), ErrorResponse>)
    ensures
        r is Ok <==> outcome is Ok,
        outcome matches Err(m) ==> r is Err && errors::error_says(
            r->Err_0,
            403,
            "target_not_allowed"@,
            m@,
        ),
{
    match outcome {
        Ok(_) => Ok(()),
        Err(m) => Err(errors::error_response(403, "target_not_allowed", m.as_str())),
    }
}

/// Whether a text parses as an HTTP method token.
pub uninterp spec fn method_parse_ok(s: Seq<char>) -> bool;

/// The display text of the method parse error.
pub uninterp spec fn method_parse_err_msg(s: Seq<char>) -> Seq<char>;

/// Relies on http's `Method` `FromStr` (through hyper's re-export):
/// validity, and the error's display text, are functions of the token
/// alone.
#[verifier::external_body]
fn parse_method_check(s: &str) -> (r: Result<(), String>)
    ensures
        r is Ok <==> method_parse_ok(s@),
        r matches Err(m) ==> m@ == method_parse_err_msg(s@),
{
    match s.parse::<hyper::Method>() {
        Ok(_) => Ok(()),
        Err(e) => Err(e.to_string()),
    }
}

/// Whether a text parses as a URI the HTTP client can dial.
pub uninterp spec fn uri_parse_ok(s: Seq<char>) -> bool;

/// The display text of the URI parse error.
pub uninterp spec fn uri_parse_err_msg(s: Seq<char>) -> Seq<char>;

/// Relies on http's `Uri` `FromStr` (through hyper's re-export): validity,
/// and the error's display text, are functions of the text alone.
#[verifier::external_body]
fn parse_uri_check(s: &str) -> (r: Result<(), String>)
    ensures
        r is Ok <==> uri_parse_ok(s@),
        r matches Err(m) ==> m@ == uri_parse_err_msg(s@),
{
    match s.parse::<hyper::Uri>() {
        Ok(_) => Ok(()),
        Err(e) => Err(e.to_string()),
    }
}

/// Gates the delegated method token: a token the HTTP layer cannot parse
/// is a 400 before any request is built.
pub fn check_method(method: &str) -> (r: Result<(), ErrorResponse>)
    ensures
        r is Ok <==> method_parse_ok(method@),
        !method_parse_ok(method@) ==> r is Err && errors::error_says(
            r->Err_0,
            400,
            "bad_request"@,
            "invalid method: "@ + method_parse_err_msg(method@),
        ),
{
    match parse_method_check(method) {
        Ok(_) => Ok(()),
        Err(m) => {
            let mut detail = String::from_str("invalid method: ");
            detail.append(m.as_str());
            Err(errors::error_response(400, "bad_request", detail.as_str()))
        },
    }
}

/// Gates the delegated URL as a dialable URI: one the HTTP layer cannot
/// parse is a 400 before any request is built.
pub fn check_target_uri(target_url: &str) -> (r: Result<(), ErrorResponse>)
    ensures
        r is Ok <==> uri_parse_ok(target_url@),
        !uri_parse_ok(target_url@) ==> r is Err && errors::error_says(
            r->Err_0,
            400,
            "bad_request"@,
            "invalid URL: "@ + uri_parse_err_msg(target_url@),
        ),
{
    match parse_uri_check(target_url) {
        Ok(_) => Ok(()),
        Err(m) => {
            let mut detail = String::from_str("invalid URL: ");
            detail.append(m.as_str());
            Err(errors::error_response(400, "bad_request", detail.as_str()))
        },
    }
}

} // verus!
