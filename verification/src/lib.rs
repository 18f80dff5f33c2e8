//! Verified core of a request-delegation proxy endpoint.
//!
//! A trusted controller hands the proxy a fully described outbound HTTP(S)
//! request (method, target URL, header overrides, body) encoded in dedicated
//! request headers. This crate holds the decision logic of that pipeline:
//! credential and metadata gating, target resolution, header-override
//! filtering, body-transport selection, timing assembly, and the scrubbing of
//! upstream error text. The unverified shell around it performs the actual
//! network I/O and feeds its outcomes back in as plain values.

pub mod auth_gate;
pub mod errors;
pub mod headers;
pub mod json;
pub mod metadata;
pub mod sanitize;
pub mod target;
pub mod text;
pub mod timing;
pub mod transport;
