//! Decoding of the delegation envelope out of the dedicated request
//! headers: method, target URL, the base64(JSON) header-override bundle,
//! the compression flag and the declared content length. Fails closed:
//! any missing or malformed required field is a 400 with a field-specific
//! message, and nothing is guessed.

use vstd::prelude::*;
use crate::errors;
use crate::errors::ErrorResponse;
use crate::json;
use crate::text;

verus! {

/// What base64 decoding (standard alphabet, padded) yields for a text, if
/// the text is valid base64.
pub uninterp spec fn base64_decoding(s: Seq<char>) -> Option<Seq<u8>>;

/// Relies on base64's `Engine::decode` with the standard engine: whether a
/// text decodes, and to which bytes, is a function of the text alone.
#[verifier::external_body]
fn decode_base64(s: &str) -> (r: Result<Vec<u8>, ()>)
    ensures
        r is Ok <==> base64_decoding(s@) is Some,
        r matches Ok(v) ==> base64_decoding(s@) == Some(v@),
{
    match base64::Engine::decode(&base64::engine::general_purpose::STANDARD, s) {
        Ok(v) => Ok(v),
        Err(_) => Err(()),
    }
}

/// The string-to-string object a byte text parses to, if it is valid JSON
/// of exactly that shape, as key-sorted pairs (the order an ordered map
/// hands them out).
pub uninterp spec fn json_header_map(bytes: Seq<u8>) -> Option<Seq<(Seq<char>, Seq<char>)>>;

/// The character sequences of a list of owned string pairs.
pub open spec fn pairs_view(v: Seq<(String, String)>) -> Seq<(Seq<char>, Seq<char>)> {
    v.map_values(|p: (String, String)| (p.0@, p.1@))
}

/// Relies on serde_json's `from_slice` into an ordered string-to-string
/// map: it succeeds exactly on JSON objects whose values are all strings,
/// and both that and the resulting pairs are functions of the bytes alone.
#[verifier::external_body]
fn parse_header_object(bytes: &Vec<u8>) -> (r: Result<Vec<(String, String)>, ()>)
    ensures
        r is Ok <==> json_header_map(bytes@) is Some,
        r matches Ok(v) ==> json_header_map(bytes@) == Some(pairs_view(v@)),
{
    match serde_json::from_slice::<std::collections::BTreeMap<String, String>>(bytes.as_slice()) {
        Ok(m) => Ok(m.into_iter().collect()),
        Err(_) => Err(()),
    }
}

/// One fully described outbound request, built from the delegation headers
/// and immutable afterwards. The body itself stays with the transport; only
/// its declared length (telemetry, never trusted for sizing) travels here.
pub struct DelegationRequest {
    pub method: String,
    pub target_url: String,
    pub header_overrides: Vec<(String, String)>,
    pub is_compressed: bool,
    pub declared_content_length: u64,
}

/// The override pairs the bundle text denotes, when everything decodes.
pub open spec fn bundle_pairs(headers_b64: Option<&str>) -> Seq<(Seq<char>, Seq<char>)> {
    match headers_b64 {
        None => Seq::empty(),
        Some(b) => json_header_map(base64_decoding(b@)->0)->0,
    }
}

/// Reads the delegation envelope off the header values, exactly as the
/// endpoint sees them (a header that is absent or not UTF-8 arrives here as
/// `None`). Every failure is a 400 with its field-specific message; the
/// method and URL are carried on as text, to be validated in their own
/// later steps.
pub fn extract_delegation_request(
    method_header: Option<&str>,
    url_header: Option<&str>,
    headers_b64: Option<&str>,
    content_encoding: Option<&str>,
    content_length: Option<&str>,
) -> (r: Result<DelegationRequest, ErrorResponse>)
    ensures
        r is Ok <==> (method_header is Some && url_header is Some && (headers_b64 matches Some(b)
            ==> (base64_decoding(b@) matches Some(d) && json_header_map(d) is Some))),
        method_header is None ==> r is Err && errors::error_says(
            r->Err_0,
            400,
            "bad_request"@,
            "missing X-Delegate-Method header"@,
        ),
        method_header is Some && url_header is None ==> r is Err && errors::error_says(
            r->Err_0,
            400,
            "bad_request"@,
            "missing X-Delegate-Url header"@,
        ),
        method_header is Some && url_header is Some && (headers_b64 matches Some(b)
            && base64_decoding(b@) is None) ==> r is Err && errors::error_says(
            r->Err_0,
            400,
            "bad_request"@,
            "invalid X-Delegate-Headers base64"@,
        ),
        method_header is Some && url_header is Some && (headers_b64 matches Some(b)
            && base64_decoding(b@) matches Some(d) && json_header_map(d) is None) ==> r is Err
            && errors::error_says(
            r->Err_0,
            400,
            "bad_request"@,
            "invalid X-Delegate-Headers JSON"@,
        ),
        r matches Ok(q) ==> {
            &&& q.method@ == method_header->0@
            &&& q.target_url@ == url_header->0@
            &&& pairs_view(q.header_overrides@) == bundle_pairs(headers_b64)
            &&& q.is_compressed == (content_encoding matches Some(e) && text::eq_ignore_ascii(
                e@,
                "gzip"@,
            ))
            &&& q.declared_content_length == (match content_length {
                Some(t) => match text::parse_u64_spec(t@) {
                    Some(n) => n,
                    None => 0u64,
                },
                None => 0u64,
            })
        },
{
    let method = match method_header {
        Some(m) => m.to_owned(),
        None => {
            return Err(
                errors::error_response(400, "bad_request", "missing X-Delegate-Method header"),
            );
        },
    };
    let target_url = match url_header {
        Some(u) => u.to_owned(),
        None => {
            return Err(
                errors::error_response(400, "bad_request", "missing X-Delegate-Url header"),
            );
        },
    };
    let header_overrides: Vec<(String, String)> = match headers_b64 {
        Some(b) => {
            let decoded = match decode_base64(b) {
                Ok(d) => d,
                Err(_) => {
                    return Err(
                        errors::error_response(
                            400,
                            "bad_request",
                            "invalid X-Delegate-Headers base64",
                        ),
                    );
                },
            };
            match parse_header_object(&decoded) {
                Ok(pairs) => pairs,
                Err(_) => {
                    return Err(
                        errors::error_response(
                            400,
                            "bad_request",
                            "invalid X-Delegate-Headers JSON",
                        ),
                    );
                },
            }
        },
        None => Vec::new(),
    };
    let is_compressed = match content_encoding {
        Some(e) => text::str_eq_ignore_ascii_case(e, "gzip"),
        None => false,
    };
    let declared_content_length = match content_length {
        Some(t) => match text::parse_u64(t) {
            Some(n) => n,
            None => 0,
        },
        None => 0,
    };
    proof {
        if headers_b64 is None {
            assert(pairs_view(Seq::<(String, String)>::empty()) =~= Seq::<
                (Seq<char>, Seq<char>),
            >::empty());
        }
    }
    Ok(
        DelegationRequest {
            method,
            target_url,
            header_overrides,
            is_compressed,
            declared_content_length,
        },
    )
}

} // verus!
