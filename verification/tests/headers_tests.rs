use aether_delegate::headers::build_outbound_headers;

fn pairs(list: &[(&str, &str)]) -> Vec<(String, String)> {
    list.iter().map(|(a, b)| (a.to_string(), b.to_string())).collect()
}

#[test]
fn host_override_is_dropped() {
    let overrides = pairs(&[("Host", "evil.example"), ("X-A", "1")]);
    let out = build_outbound_headers(&overrides, false).ok().unwrap();
    assert_eq!(out, pairs(&[("X-A", "1")]));
}

#[test]
fn host_override_is_dropped_in_any_casing() {
    for h in ["host", "HOST", "hOsT"] {
        let overrides = pairs(&[(h, "evil.example")]);
        let out = build_outbound_headers(&overrides, false).ok().unwrap();
        assert!(out.is_empty());
    }
}

#[test]
fn gzip_is_forced_last_when_compressed() {
    let overrides = pairs(&[("Content-Encoding", "identity"), ("X-A", "1")]);
    let out = build_outbound_headers(&overrides, true).ok().unwrap();
    assert_eq!(
        out,
        pairs(&[
            ("Content-Encoding", "identity"),
            ("X-A", "1"),
            ("content-encoding", "gzip"),
        ])
    );
    assert_eq!(out.last().unwrap(), &("content-encoding".to_string(), "gzip".to_string()));
}

#[test]
fn gzip_is_not_added_when_uncompressed() {
    let out = build_outbound_headers(&pairs(&[("X-A", "1")]), false).ok().unwrap();
    assert_eq!(out, pairs(&[("X-A", "1")]));
}

#[test]
fn invalid_header_name_is_400() {
    let overrides = pairs(&[("bad name", "v")]);
    let e = build_outbound_headers(&overrides, false).err().unwrap();
    assert_eq!(e.status, 400);
    assert_eq!(
        e.body,
        "{\"detail\":\"invalid header name\",\"error\":\"bad_request\"}"
    );
}

#[test]
fn invalid_header_value_is_400() {
    let overrides = pairs(&[("X-A", "line\nbreak")]);
    let e = build_outbound_headers(&overrides, false).err().unwrap();
    assert_eq!(e.status, 400);
    assert_eq!(
        e.body,
        "{\"detail\":\"invalid header value\",\"error\":\"bad_request\"}"
    );
}

#[test]
fn overrides_kept_in_order() {
    let overrides = pairs(&[("X-B", "2"), ("X-A", "1"), ("X-C", "3")]);
    let out = build_outbound_headers(&overrides, false).ok().unwrap();
    assert_eq!(out, pairs(&[("X-B", "2"), ("X-A", "1"), ("X-C", "3")]));
}
