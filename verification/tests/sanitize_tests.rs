use aether_delegate::sanitize::sanitize_upstream_error;

#[test]
fn scrub_strips_https_url_to_authority() {
    let msg = "connect to https://api.example.com/v1/chat?key=SECRET failed";
    assert_eq!(
        sanitize_upstream_error(msg),
        "connect to api.example.com failed"
    );
}

#[test]
fn scrub_doc_example() {
    assert_eq!(
        sanitize_upstream_error("https://api.example.com/v1/chat?key=xxx"),
        "api.example.com"
    );
}

#[test]
fn scrub_keeps_host_and_port() {
    assert_eq!(
        sanitize_upstream_error("https://h.example:8443/p/q?a=b oops"),
        "h.example:8443 oops"
    );
}

#[test]
fn scrub_http_scheme_too() {
    assert_eq!(sanitize_upstream_error("see http://x.io/a#frag"), "see x.io");
}

#[test]
fn scrub_plain_text_unchanged() {
    let msg = "connection refused by peer";
    assert_eq!(sanitize_upstream_error(msg), msg);
}

#[test]
fn scrub_multiple_urls() {
    let msg = "https://a.example/p then http://b.example/q done";
    assert_eq!(sanitize_upstream_error(msg), "a.example then b.example done");
}

#[test]
fn scrub_url_without_path_or_trailing_text() {
    assert_eq!(sanitize_upstream_error("https://a.b"), "a.b");
}

#[test]
fn scrub_is_idempotent_on_scrubbed_output() {
    let samples = [
        "connect to https://api.example.com/v1/chat?key=SECRET failed",
        "plain text",
        "http://x/a http://y/b",
        "https://h.example:8443/p/q?a=b oops",
        // Adversarial seams: rewriting must not manufacture a new marker.
        "httpshttp://://x",
        "hthttps://tp://evil",
        "https:http://h/ //x",
    ];
    for msg in samples {
        let once = sanitize_upstream_error(msg);
        let twice = sanitize_upstream_error(&once);
        assert_eq!(twice, once);
    }
}
