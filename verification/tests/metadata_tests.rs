use aether_delegate::metadata::extract_delegation_request;
use base64::Engine;

fn b64(s: &str) -> String {
    base64::engine::general_purpose::STANDARD.encode(s.as_bytes())
}

#[test]
fn missing_method_is_400() {
    let r = extract_delegation_request(None, Some("https://x.example/"), None, None, None);
    let e = r.err().unwrap();
    assert_eq!(e.status, 400);
    assert_eq!(
        e.body,
        "{\"detail\":\"missing X-Delegate-Method header\",\"error\":\"bad_request\"}"
    );
}

#[test]
fn missing_url_is_400() {
    let r = extract_delegation_request(Some("POST"), None, None, None, None);
    let e = r.err().unwrap();
    assert_eq!(e.status, 400);
    assert_eq!(
        e.body,
        "{\"detail\":\"missing X-Delegate-Url header\",\"error\":\"bad_request\"}"
    );
}

#[test]
fn invalid_base64_bundle_is_400() {
    let r = extract_delegation_request(
        Some("POST"),
        Some("https://x.example/"),
        Some("!!!not-base64!!!"),
        None,
        None,
    );
    let e = r.err().unwrap();
    assert_eq!(e.status, 400);
    assert_eq!(
        e.body,
        "{\"detail\":\"invalid X-Delegate-Headers base64\",\"error\":\"bad_request\"}"
    );
}

#[test]
fn invalid_json_bundle_is_400() {
    let bundle = b64("this is not json");
    let r = extract_delegation_request(
        Some("POST"),
        Some("https://x.example/"),
        Some(&bundle),
        None,
        None,
    );
    let e = r.err().unwrap();
    assert_eq!(e.status, 400);
    assert_eq!(
        e.body,
        "{\"detail\":\"invalid X-Delegate-Headers JSON\",\"error\":\"bad_request\"}"
    );
}

#[test]
fn wrong_shape_json_bundle_is_400() {
    for wrong in ["{\"a\":1}", "[\"x\",\"y\"]", "\"just a string\"", "{\"a\":{\"b\":\"c\"}}"] {
        let bundle = b64(wrong);
        let r = extract_delegation_request(
            Some("POST"),
            Some("https://x.example/"),
            Some(&bundle),
            None,
            None,
        );
        let e = r.err().unwrap();
        assert_eq!(e.status, 400);
        assert_eq!(
            e.body,
            "{\"detail\":\"invalid X-Delegate-Headers JSON\",\"error\":\"bad_request\"}"
        );
    }
}

#[test]
fn valid_bundle_decodes_to_sorted_pairs() {
    let bundle = b64("{\"X-Custom\":\"1\",\"Authorization\":\"Bearer tok\"}");
    let r = extract_delegation_request(
        Some("POST"),
        Some("https://api.example.com/v1/x"),
        Some(&bundle),
        None,
        None,
    )
    .ok()
    .unwrap();
    assert_eq!(r.method, "POST");
    assert_eq!(r.target_url, "https://api.example.com/v1/x");
    assert_eq!(
        r.header_overrides,
        vec![
            ("Authorization".to_string(), "Bearer tok".to_string()),
            ("X-Custom".to_string(), "1".to_string()),
        ]
    );
    assert!(!r.is_compressed);
    assert_eq!(r.declared_content_length, 0);
}

#[test]
fn missing_bundle_means_no_overrides() {
    let r = extract_delegation_request(Some("GET"), Some("http://a.example/"), None, None, None)
        .ok()
        .unwrap();
    assert!(r.header_overrides.is_empty());
}

#[test]
fn gzip_flag_is_case_insensitive() {
    for (enc, want) in [
        (Some("gzip"), true),
        (Some("GZIP"), true),
        (Some("GzIp"), true),
        (Some("br"), false),
        (None, false),
    ] {
        let r = extract_delegation_request(
            Some("POST"),
            Some("https://x.example/"),
            None,
            enc,
            None,
        )
        .ok()
        .unwrap();
        assert_eq!(r.is_compressed, want);
    }
}

#[test]
fn content_length_is_telemetry_only_and_lenient() {
    for (cl, want) in [
        (Some("123"), 123u64),
        (Some("+7"), 7),
        (Some("abc"), 0),
        (Some(""), 0),
        (Some("18446744073709551615"), u64::MAX),
        (Some("18446744073709551616"), 0),
        (None, 0),
    ] {
        let r = extract_delegation_request(
            Some("POST"),
            Some("https://x.example/"),
            None,
            None,
            cl,
        )
        .ok()
        .unwrap();
        assert_eq!(r.declared_content_length, want);
    }
}
