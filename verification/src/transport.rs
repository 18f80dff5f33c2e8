//! The transport-facing decisions: the tagged plain-or-TLS stream model, the
//! timing carried on an established connection, scheme classification for
//! the connector, IPv6 bracket stripping for the TLS server name, and the
//! choice between the two body-forwarding strategies.

use vstd::prelude::*;
use vstd::string::StrSliceExecFns;
use crate::errors;
use crate::json;
use crate::text;
use crate::timing::ConnectTiming;

verus! {

/// The two transport variants behind one read/write surface: a plain TCP
/// stream or a TLS-wrapped one. Exactly one variant is live per instance,
/// fixed at construction. `P` and `S` are the shell's plain and secured
/// stream types; `alpn_h2` records whether ALPN negotiated HTTP/2 at
/// handshake time.
pub enum DualStream<P, S> {
    Plain(P),
    Secured { stream: S, alpn_h2: bool },
}

impl<P, S> DualStream<P, S> {
    /// The "ALPN negotiated HTTP/2" predicate: meaningful only for the
    /// secured variant, always false for a plain connection.
    pub fn negotiated_h2(&self) -> (r: bool)
        ensures
            r == (self matches DualStream::Secured { stream: _, alpn_h2: true }),
    {
        match self {
            DualStream::Plain(_) => false,
            DualStream::Secured { stream: _, alpn_h2 } => *alpn_h2,
        }
    }
}

/// Whether a negotiated ALPN protocol token is exactly `h2` (the bytes
/// 0x68, 0x32), the marker for HTTP/2.
pub fn alpn_is_h2(proto: &Option<Vec<u8>>) -> (r: bool)
    ensures
        r == (match proto {
            Some(p) => p@ == seq![104u8, 50u8],
            None => false,
        }),
{
    match proto {
        None => false,
        Some(p) => {
            let r = p.len() == 2 && p[0] == 104 && p[1] == 50;
            proof {
                if r {
                    assert(p@ =~= seq![104u8, 50u8]);
                }
            }
            r
        },
    }
}

/// A transport stream paired with the timing measured when it was
/// established, so the figures can be read back when a response arrives on
/// that very connection, without re-measuring and without a side table.
pub struct TimedConn<T> {
    pub inner: T,
    pub timing: ConnectTiming,
}

impl<T> TimedConn<T> {
    /// Attaches connection-establishment timing to a stream.
    pub fn new(inner: T, timing: ConnectTiming) -> (r: Self)
        ensures
            r.inner == inner,
            r.timing == timing,
    {
        TimedConn { inner, timing }
    }
}

/// The timing a plain connection carries: its connect figure alone, the
/// TLS figure pinned to zero — the invariant every plain connection keeps.
pub fn plain_connect_timing(connect_ms: u64) -> (r: ConnectTiming)
    ensures
        r.connect_ms == connect_ms,
        r.tls_ms == 0,
{
    ConnectTiming { connect_ms, tls_ms: 0 }
}

/// What the connector must do for a target's scheme.
#[derive(Clone, Copy, Debug, PartialEq, Eq, Structural)]
pub enum SchemePlan {
    /// `http`: plain transport connect, no handshake, `tls_ms` is zero.
    Plain,
    /// `https`: transport connect, then a TLS handshake.
    Tls,
    /// Any other scheme: a hard connection error.
    UnsupportedScheme,
    /// No scheme at all: a hard connection error.
    MissingScheme,
}

/// The plan for a scheme text, compared case-insensitively.
pub open spec fn scheme_plan(scheme: Option<Seq<char>>) -> SchemePlan {
    match scheme {
        None => SchemePlan::MissingScheme,
        Some(s) => if text::eq_ignore_ascii(s, "http"@) {
            SchemePlan::Plain
        } else if text::eq_ignore_ascii(s, "https"@) {
            SchemePlan::Tls
        } else {
            SchemePlan::UnsupportedScheme
        },
    }
}

/// Classifies a target URI's scheme.
pub fn classify_scheme(scheme: Option<&str>) -> (r: SchemePlan)
    ensures
        r == scheme_plan(match scheme {
            Some(s) => Some(s@),
            None => None,
        }),
{
    match scheme {
        None => SchemePlan::MissingScheme,
        Some(s) => {
            if text::str_eq_ignore_ascii_case(s, "http") {
                SchemePlan::Plain
            } else if text::str_eq_ignore_ascii_case(s, "https") {
                SchemePlan::Tls
            } else {
                SchemePlan::UnsupportedScheme
            }
        },
    }
}

/// First index at or after `from` whose character differs from `c`, or
/// `s.len()`.
pub open spec fn run_end(s: Seq<char>, from: int, c: char) -> int
    decreases s.len() - from,
{
    if from < 0 || from >= s.len() {
        s.len() as int
    } else if s[from] != c {
        from
    } else {
        run_end(s, from + 1, c)
    }
}

/// Last index at or before `upto` such that everything from it on (below
/// `upto`) is `c`; 0 if all of it is.
pub open spec fn run_start(s: Seq<char>, upto: int, c: char) -> int
    decreases upto,
{
    if upto <= 0 {
        0
    } else if s[upto - 1] != c {
        upto
    } else {
        run_start(s, upto - 1, c)
    }
}

/// The host with IPv6 bracket syntax stripped: every leading `[` and every
/// trailing `]` removed, as the TLS server name wants it.
pub open spec fn stripped_brackets(s: Seq<char>) -> Seq<char> {
    let a = run_end(s, 0, '[');
    let b = run_start(s, s.len() as int, ']');
    if a <= b {
        s.subrange(a, b)
    } else {
        Seq::empty()
    }
}

/// Strips IPv6 bracket syntax off a URL host, as
/// `trim_start_matches('[')` then `trim_end_matches(']')` would.
pub fn strip_ipv6_brackets(host: &str) -> (r: &str)
    ensures
        r@ == stripped_brackets(host@),
{
    let len = host.unicode_len();
    let mut a: usize = 0;
    while a < len && host.get_char(a) == '['
        invariant
            len == host@.len(),
            a <= len,
            run_end(host@, 0, '[') == run_end(host@, a as int, '['),
            forall|j: int| 0 <= j < a ==> host@[j] == '[',
        decreases len - a,
    {
        a += 1;
    }
    let mut b: usize = len;
    while b > a && host.get_char(b - 1) == ']'
        invariant
            len == host@.len(),
            a <= b <= len,
            run_start(host@, len as int, ']') == run_start(host@, b as int, ']'),
            forall|j: int| 0 <= j < a ==> host@[j] == '[',
        decreases b,
    {
        b -= 1;
    }
    proof {
        // At the exits: no `[` stands at `a`, and either `b` sits on a
        // non-`]` character or it has met the leading `[` run.
        if b > 0 && b == a {
            assert(host@[b - 1] == '[');
        }
        assert(run_start(host@, b as int, ']') == b);
        assert(run_end(host@, a as int, '[') == a);
        assert(host@.subrange(a as int, b as int) == stripped_brackets(host@));
    }
    host.substring_char(a, b)
}

/// Ceiling on a buffered (uncompressed) request body.
pub const MAX_BUFFERED_BODY_BYTES: usize = 10 * 1024 * 1024;

/// How a request body travels upstream. Chosen once per request; compressed
/// bodies stream through uncapped (the sender is trusted to have bounded
/// them), everything else is buffered under the ceiling.
#[derive(Clone, Copy, Debug, PartialEq, Eq, Structural)]
pub enum BodyStrategy {
    StreamingPassthrough,
    BoundedBuffering,
}

/// Picks the strategy from the compression flag.
pub fn select_body_strategy(is_compressed: bool) -> (r: BodyStrategy)
    ensures
        r == (if is_compressed {
            BodyStrategy::StreamingPassthrough
        } else {
            BodyStrategy::BoundedBuffering
        }),
{
    if is_compressed {
        BodyStrategy::StreamingPassthrough
    } else {
        BodyStrategy::BoundedBuffering
    }
}

/// Outcome of collecting an uncompressed body under the ceiling: the exact
/// collected size becomes the wire size, and an overrun is terminal with
/// 413 and no partial forwarding.
pub fn on_buffered_body(collected_len: Option<u64>) -> (r: Result<u64, errors::ErrorResponse>)
    ensures
        collected_len matches Some(n) ==> r == Result::<u64, errors::ErrorResponse>::Ok(n),
        collected_len is None ==> r is Err && r->Err_0.status == 413 && r->Err_0.body@
            == json::json_error_body("payload_too_large"@, "request body exceeds 10MB limit"@),
{
    match collected_len {
        Some(n) => Ok(n),
        None => Err(
            errors::error_response(413, "payload_too_large", "request body exceeds 10MB limit"),
        ),
    }
}

} // verus!
