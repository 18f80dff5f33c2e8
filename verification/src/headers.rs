//! Construction of the outbound header list from the caller's override
//! bundle: every override is applied except a caller-supplied `Host` (the
//! transport derives Host from the target URI), every name and value must
//! pass wire-format validation, and a compressed body forces
//! `Content-Encoding: gzip` whatever the bundle said.

use vstd::prelude::*;
use crate::errors;
use crate::errors::ErrorResponse;
use crate::metadata::pairs_view;
use crate::text;

verus! {

/// Whether a text is a valid header name on the wire.
pub uninterp spec fn valid_header_name(s: Seq<char>) -> bool;

/// Relies on http's `HeaderName::from_bytes` (through hyper's re-export):
/// validity is a function of the name alone.
#[verifier::external_body]
fn header_name_valid(s: &str) -> (r: bool)
    ensures
        r == valid_header_name(s@),
{
    match hyper::header::HeaderName::from_bytes(s.as_bytes()) {
        Ok(_) => true,
        Err(_) => false,
    }
}

/// Whether a text is a valid header value on the wire.
pub uninterp spec fn valid_header_value(s: Seq<char>) -> bool;

/// Relies on http's `HeaderValue::from_str` (through hyper's re-export):
/// validity is a function of the value alone.
#[verifier::external_body]
fn header_value_valid(s: &str) -> (r: bool)
    ensures
        r == valid_header_value(s@),
{
    match hyper::header::HeaderValue::from_str(s) {
        Ok(_) => true,
        Err(_) => false,
    }
}

/// The overrides applied in order: a `Host` override (any casing) is
/// skipped, the first invalid name or value stops everything with its
/// message, and the rest are kept as given.
pub open spec fn apply_overrides(pairs: Seq<(Seq<char>, Seq<char>)>) -> Result<
    Seq<(Seq<char>, Seq<char>)>,
    Seq<char>,
>
    decreases pairs.len(),
{
    if pairs.len() == 0 {
        Ok(Seq::empty())
    } else {
        let p = pairs[0];
        if text::eq_ignore_ascii(p.0, "host"@) {
            apply_overrides(pairs.drop_first())
        } else if !valid_header_name(p.0) {
            Err("invalid header name"@)
        } else if !valid_header_value(p.1) {
            Err("invalid header value"@)
        } else {
            match apply_overrides(pairs.drop_first()) {
                Ok(t) => Ok(seq![p] + t),
                Err(m) => Err(m),
            }
        }
    }
}

/// The full outbound header list: the applied overrides, with
/// `content-encoding: gzip` appended when the body streams through
/// compressed.
pub open spec fn outbound_headers(pairs: Seq<(Seq<char>, Seq<char>)>, is_compressed: bool) -> Result<
    Seq<(Seq<char>, Seq<char>)>,
    Seq<char>,
> {
    match apply_overrides(pairs) {
        Ok(t) => Ok(
            if is_compressed {
                t.push(("content-encoding"@, "gzip"@))
            } else {
                t
            },
        ),
        Err(m) => Err(m),
    }
}

/// Builds the outbound header list from the override bundle. A name or
/// value that fails wire-format validation is a 400 before any network
/// call; a `Host` override is dropped; a compressed body forces the gzip
/// marker last, overriding any conflicting bundle entry.
pub fn build_outbound_headers(overrides: &Vec<(String, String)>, is_compressed: bool) -> (r: Result<
    Vec<(String, String)>,
    ErrorResponse,
>)
    ensures
        r is Ok <==> outbound_headers(pairs_view(overrides@), is_compressed) is Ok,
        r matches Ok(v) ==> Ok::<_, Seq<char>>(pairs_view(v@)) == outbound_headers(
            pairs_view(overrides@),
            is_compressed,
        ),
        r matches Err(e) ==> errors::error_says(
            e,
            400,
            "bad_request"@,
            outbound_headers(pairs_view(overrides@), is_compressed)->Err_0,
        ),
{
    let ghost full = pairs_view(overrides@);
    let mut out: Vec<(String, String)> = Vec::new();
    let mut i: usize = 0;
    proof {
        assert(pairs_view(out@) =~= Seq::<(Seq<char>, Seq<char>)>::empty());
        assert(full.skip(0) =~= full);
        if let Ok(t) = apply_overrides(full) {
            assert(pairs_view(out@) + t =~= t);
        }
    }
    while i < overrides.len()
        invariant
            full == pairs_view(overrides@),
            i <= overrides@.len(),
            apply_overrides(full) == (match apply_overrides(full.skip(i as int)) {
                Ok(t) => Ok::<_, Seq<char>>(pairs_view(out@) + t),
                Err(m) => Err::<Seq<(Seq<char>, Seq<char>)>, _>(m),
            }),
        decreases overrides@.len() - i,
    {
        proof {
            assert(full.skip(i as int).drop_first() =~= full.skip(i + 1));
            assert(full.skip(i as int)[0] == (overrides@[i as int].0@, overrides@[i as int].1@));
        }
        let name = &overrides[i].0;
        let value = &overrides[i].1;
        if text::str_eq_ignore_ascii_case(name.as_str(), "host") {
            i += 1;
            continue ;
        }
        if !header_name_valid(name.as_str()) {
            return Err(errors::error_response(400, "bad_request", "invalid header name"));
        }
        if !header_value_valid(value.as_str()) {
            return Err(errors::error_response(400, "bad_request", "invalid header value"));
        }
        let ghost out_before = pairs_view(out@);
        out.push((name.clone(), value.clone()));
        proof {
            assert(pairs_view(out@) =~= out_before.push(full.skip(i as int)[0]));
            assert forall|t: Seq<(Seq<char>, Seq<char>)>|
                out_before + (seq![full.skip(i as int)[0]] + t) =~= pairs_view(out@) + t by {}
        }
        i += 1;
    }
    proof {
        assert(full.skip(full.len() as int) =~= Seq::<(Seq<char>, Seq<char>)>::empty());
        assert(apply_overrides(full) == (match apply_overrides(Seq::<(Seq<char>, Seq<char>)>::empty()) {
            Ok(t) => Ok::<_, Seq<char>>(pairs_view(out@) + t),
            Err(m) => Err::<Seq<(Seq<char>, Seq<char>)>, _>(m),
        }));
        assert(pairs_view(out@) + Seq::<(Seq<char>, Seq<char>)>::empty() =~= pairs_view(out@));
    }
    if is_compressed {
        let ghost out_before = pairs_view(out@);
        out.push(("content-encoding".to_owned(), "gzip".to_owned()));
        proof {
            assert(pairs_view(out@) =~= out_before.push(("content-encoding"@, "gzip"@)));
        }
    }
    Ok(out)
}

proof fn lemma_apply_overrides_no_host(pairs: Seq<(Seq<char>, Seq<char>)>)
    ensures
        apply_overrides(pairs) matches Ok(t) ==> forall|i: int|
            0 <= i < t.len() ==> !text::eq_ignore_ascii(#[trigger] t[i].0, "host"@),
    decreases pairs.len(),
{
    if pairs.len() > 0 {
        lemma_apply_overrides_no_host(pairs.drop_first());
        let p = pairs[0];
        if !text::eq_ignore_ascii(p.0, "host"@) && valid_header_name(p.0) && valid_header_value(
            p.1,
        ) {
            if let Ok(t) = apply_overrides(pairs.drop_first()) {
                assert forall|i: int| 0 <= i < (seq![p] + t).len() implies !text::eq_ignore_ascii(
                    #[trigger] (seq![p] + t)[i].0,
                    "host"@,
                ) by {
                    if i > 0 {
                        assert((seq![p] + t)[i] == t[i - 1]);
                    }
                }
            }
        }
    }
}

/// A caller-supplied `Host` override never reaches the outbound list, in
/// any casing: the transport alone derives Host from the target URI.
pub proof fn lemma_no_host_override(pairs: Seq<(Seq<char>, Seq<char>)>, is_compressed: bool)
    ensures
        outbound_headers(pairs, is_compressed) matches Ok(t) ==> forall|i: int|
            0 <= i < t.len() ==> !text::eq_ignore_ascii(#[trigger] t[i].0, "host"@),
{
    lemma_apply_overrides_no_host(pairs);
    reveal_strlit("content-encoding");
    reveal_strlit("host");
    assert("content-encoding"@.len() == 16);
    assert("host"@.len() == 4);
    if let Ok(t) = apply_overrides(pairs) {
        if is_compressed {
            let u = t.push(("content-encoding"@, "gzip"@));
            assert forall|i: int| 0 <= i < u.len() implies !text::eq_ignore_ascii(
                #[trigger] u[i].0,
                "host"@,
            ) by {
                if i < t.len() {
                    assert(u[i] == t[i]);
                } else {
                    assert(u[i].0 == "content-encoding"@);
                }
            }
        }
    }
}

/// A compressed body always leaves with `content-encoding: gzip` as the
/// last outbound header, whatever the override bundle held.
pub proof fn lemma_gzip_forced(pairs: Seq<(Seq<char>, Seq<char>)>)
    ensures
        outbound_headers(pairs, true) matches Ok(t) ==> t.len() >= 1 && t.last() == (
        "content-encoding"@,
        "gzip"@,
        ),
{
}

} // verus!
