//! Per-request timing telemetry: the durations measured while a delegation
//! is carried out, the derived upstream-processing figure, and the exact
//! rendering of the report into the single response header that carries it.

use vstd::prelude::*;
use vstd::string::StringExecFns;
use crate::text;

verus! {

/// Connection-establishment timing, attached to a connection when it is
/// created and read back when a response arrives on it.
///
/// A plain (non-TLS) connection always carries `tls_ms == 0`.
#[derive(Clone, Copy, Debug)]
pub struct ConnectTiming {
    pub connect_ms: u64,
    pub tls_ms: u64,
}

impl Default for ConnectTiming {
    /// A zeroed timing, as carried by a pooled connection whose
    /// establishment cost was already paid by an earlier request.
    fn default() -> (r: Self)
        ensures
            r.connect_ms == 0,
            r.tls_ms == 0,
    {
        ConnectTiming { connect_ms: 0, tls_ms: 0 }
    }
}

/// Time the upstream spent before its first response byte, once the cost of
/// establishing the connection is taken out: `ttfb - (connect + tls)`,
/// floored at zero so a reused connection (whose establishment cost was paid
/// earlier and reads as zero) can never drive the figure negative.
pub fn upstream_processing_ms(ttfb_ms: u64, connect_ms: u64, tls_ms: u64) -> (r: u64)
    ensures
        r == if ttfb_ms >= connect_ms + tls_ms {
            ttfb_ms - connect_ms - tls_ms
        } else {
            0
        },
{
    ttfb_ms.saturating_sub(connect_ms.saturating_add(tls_ms))
}

/// The response-scoped timing aggregate, serialized into one header once
/// the upstream response headers have arrived. Additive telemetry only.
pub struct TimingReport {
    pub auth_ms: u64,
    pub meta_ms: u64,
    pub wire_size: u64,
    pub passthrough: bool,
    pub dns_ms: u64,
    pub connect_ms: u64,
    pub tls_ms: u64,
    pub ttfb_ms: u64,
    pub upstream_ms: u64,
    pub upstream_processing_ms: u64,
    pub total_ms: u64,
}

/// Composes the report from the per-phase measurements. A connection that
/// came out of the pool carries no fresh timing: both connection figures
/// then read as zero, and the upstream-processing figure equals the TTFB.
pub fn assemble_timing(
    auth_ms: u64,
    meta_ms: u64,
    wire_size: u64,
    passthrough: bool,
    dns_ms: u64,
    connect: Option<ConnectTiming>,
    ttfb_ms: u64,
    total_ms: u64,
) -> (r: TimingReport)
    ensures
        r.auth_ms == auth_ms,
        r.meta_ms == meta_ms,
        r.wire_size == wire_size,
        r.passthrough == passthrough,
        r.dns_ms == dns_ms,
        r.connect_ms == (match connect {
            Some(t) => t.connect_ms,
            None => 0u64,
        }),
        r.tls_ms == (match connect {
            Some(t) => t.tls_ms,
            None => 0u64,
        }),
        r.ttfb_ms == ttfb_ms,
        r.upstream_ms == ttfb_ms,
        r.upstream_processing_ms == (if ttfb_ms >= r.connect_ms + r.tls_ms {
            ttfb_ms - r.connect_ms - r.tls_ms
        } else {
            0
        }),
        r.total_ms == total_ms,
{
    let (connect_ms, tls_ms) = match connect {
        Some(t) => (t.connect_ms, t.tls_ms),
        None => (0u64, 0u64),
    };
    TimingReport {
        auth_ms,
        meta_ms,
        wire_size,
        passthrough,
        dns_ms,
        connect_ms,
        tls_ms,
        ttfb_ms,
        upstream_ms: ttfb_ms,
        upstream_processing_ms: upstream_processing_ms(ttfb_ms, connect_ms, tls_ms),
        total_ms,
    }
}

/// The exact text of the timing header: what serde_json renders for the
/// report's object, keys sorted, compact.
pub open spec fn timing_header_json(t: TimingReport) -> Seq<char> {
    "{\"auth_ms\":"@ + text::dec_digits(t.auth_ms as int) + ",\"connect_ms\":"@
        + text::dec_digits(t.connect_ms as int) + ",\"dns_ms\":"@ + text::dec_digits(
        t.dns_ms as int,
    ) + ",\"meta_ms\":"@ + text::dec_digits(t.meta_ms as int) + ",\"passthrough\":"@ + (
    if t.passthrough {
        "true"@
    } else {
        "false"@
    }) + ",\"tls_ms\":"@ + text::dec_digits(t.tls_ms as int) + ",\"total_ms\":"@
        + text::dec_digits(t.total_ms as int) + ",\"ttfb_ms\":"@ + text::dec_digits(
        t.ttfb_ms as int,
    ) + ",\"upstream_ms\":"@ + text::dec_digits(t.upstream_ms as int)
        + ",\"upstream_processing_ms\":"@ + text::dec_digits(t.upstream_processing_ms as int)
        + ",\"wire_size\":"@ + text::dec_digits(t.wire_size as int) + "}"@
}

/// Renders the report as the timing header's value.
pub fn timing_header_value(t: &TimingReport) -> (r: String)
    ensures
        r@ == timing_header_json(*t),
{
    let mut out = String::from_str("{\"auth_ms\":");
    out.append(text::u64_to_dec(t.auth_ms).as_str());
    out.append(",\"connect_ms\":");
    out.append(text::u64_to_dec(t.connect_ms).as_str());
    out.append(",\"dns_ms\":");
    out.append(text::u64_to_dec(t.dns_ms).as_str());
    out.append(",\"meta_ms\":");
    out.append(text::u64_to_dec(t.meta_ms).as_str());
    out.append(",\"passthrough\":");
    if t.passthrough {
        out.append("true");
    } else {
        out.append("false");
    }
    out.append(",\"tls_ms\":");
    out.append(text::u64_to_dec(t.tls_ms).as_str());
    out.append(",\"total_ms\":");
    out.append(text::u64_to_dec(t.total_ms).as_str());
    out.append(",\"ttfb_ms\":");
    out.append(text::u64_to_dec(t.ttfb_ms).as_str());
    out.append(",\"upstream_ms\":");
    out.append(text::u64_to_dec(t.upstream_ms).as_str());
    out.append(",\"upstream_processing_ms\":");
    out.append(text::u64_to_dec(t.upstream_processing_ms).as_str());
    out.append(",\"wire_size\":");
    out.append(text::u64_to_dec(t.wire_size).as_str());
    out.append("}");
    out
}

} // verus!

