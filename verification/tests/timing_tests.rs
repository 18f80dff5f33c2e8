use aether_delegate::errors::error_response;
use aether_delegate::timing::{
    assemble_timing, timing_header_value, upstream_processing_ms, ConnectTiming, TimingReport,
};

#[test]
fn upstream_processing_is_ttfb_minus_connection_cost() {
    assert_eq!(upstream_processing_ms(100, 30, 20), 50);
    assert_eq!(upstream_processing_ms(100, 0, 0), 100);
}

#[test]
fn upstream_processing_floors_at_zero() {
    assert_eq!(upstream_processing_ms(10, 30, 20), 0);
    assert_eq!(upstream_processing_ms(5, u64::MAX, 3), 0);
    assert_eq!(upstream_processing_ms(0, 0, 0), 0);
}

#[test]
fn pooled_connection_reads_as_zero_cost() {
    let r = assemble_timing(1, 2, 10, false, 3, None, 40, 50);
    assert_eq!(r.connect_ms, 0);
    assert_eq!(r.tls_ms, 0);
    assert_eq!(r.ttfb_ms, 40);
    assert_eq!(r.upstream_ms, 40);
    assert_eq!(r.upstream_processing_ms, 40);
}

#[test]
fn fresh_connection_cost_is_subtracted() {
    let timing = ConnectTiming { connect_ms: 12, tls_ms: 34 };
    let r = assemble_timing(1, 2, 10, true, 3, Some(timing), 100, 120);
    assert_eq!(r.connect_ms, 12);
    assert_eq!(r.tls_ms, 34);
    assert_eq!(r.upstream_processing_ms, 54);
    assert!(r.passthrough);
}

fn sample_report() -> TimingReport {
    assemble_timing(
        5,
        1,
        2048,
        true,
        7,
        Some(ConnectTiming { connect_ms: 12, tls_ms: 34 }),
        100,
        160,
    )
}

#[test]
fn timing_header_exact_text() {
    let r = sample_report();
    assert_eq!(
        timing_header_value(&r),
        "{\"auth_ms\":5,\"connect_ms\":12,\"dns_ms\":7,\"meta_ms\":1,\"passthrough\":true,\
         \"tls_ms\":34,\"total_ms\":160,\"ttfb_ms\":100,\"upstream_ms\":100,\
         \"upstream_processing_ms\":54,\"wire_size\":2048}"
    );
}

#[test]
fn timing_header_matches_serde_json() {
    let r = sample_report();
    let mut m = serde_json::Map::new();
    m.insert("auth_ms".to_string(), serde_json::Value::from(r.auth_ms));
    m.insert("meta_ms".to_string(), serde_json::Value::from(r.meta_ms));
    m.insert("wire_size".to_string(), serde_json::Value::from(r.wire_size));
    m.insert("passthrough".to_string(), serde_json::Value::from(r.passthrough));
    m.insert("dns_ms".to_string(), serde_json::Value::from(r.dns_ms));
    m.insert("connect_ms".to_string(), serde_json::Value::from(r.connect_ms));
    m.insert("tls_ms".to_string(), serde_json::Value::from(r.tls_ms));
    m.insert("ttfb_ms".to_string(), serde_json::Value::from(r.ttfb_ms));
    m.insert("upstream_ms".to_string(), serde_json::Value::from(r.upstream_ms));
    m.insert(
        "upstream_processing_ms".to_string(),
        serde_json::Value::from(r.upstream_processing_ms),
    );
    m.insert("total_ms".to_string(), serde_json::Value::from(r.total_ms));
    assert_eq!(timing_header_value(&r), serde_json::Value::Object(m).to_string());
}

#[test]
fn error_body_matches_serde_json() {
    let details = [
        "plain",
        "with \"quotes\" and back\\slash",
        "control\ncharacters\tand\u{1f}odd ones\u{8}",
        "unicode: \u{e9}\u{4e16}\u{754c}",
        "",
    ];
    for detail in details {
        let e = error_response(502, "upstream_connection_failed", detail);
        let mut m = serde_json::Map::new();
        m.insert(
            "error".to_string(),
            serde_json::Value::String("upstream_connection_failed".to_string()),
        );
        m.insert("detail".to_string(), serde_json::Value::String(detail.to_string()));
        assert_eq!(e.body, serde_json::Value::Object(m).to_string());
        assert_eq!(e.status, 502);
    }
}
