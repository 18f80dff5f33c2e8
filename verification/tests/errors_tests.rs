use aether_delegate::errors::{
    error_response, is_timeout_error, root_error_message, upstream_failure_response, ErrorLink,
};

fn link(message: &str, elapsed: bool, io_timeout: bool) -> ErrorLink {
    ErrorLink {
        message: message.to_string(),
        is_elapsed_timeout: elapsed,
        is_io_timed_out: io_timeout,
    }
}

#[test]
fn root_message_is_the_innermost_cause() {
    let chain = vec![
        link("request failed", false, false),
        link("connect error", false, false),
        link("connection refused", false, false),
    ];
    assert_eq!(root_error_message(&chain), "connection refused");
}

#[test]
fn single_link_is_its_own_root() {
    let chain = vec![link("boom", false, false)];
    assert_eq!(root_error_message(&chain), "boom");
}

#[test]
fn timeout_found_anywhere_in_the_chain() {
    let plain = vec![link("a", false, false), link("b", false, false)];
    assert!(!is_timeout_error(&plain));
    let elapsed_deep = vec![link("a", false, false), link("deadline", true, false)];
    assert!(is_timeout_error(&elapsed_deep));
    let io_deep = vec![link("a", false, false), link("timed out", false, true)];
    assert!(is_timeout_error(&io_deep));
}

#[test]
fn upstream_timeout_is_504() {
    let chain = vec![link("request failed", false, false), link("deadline elapsed", true, false)];
    let e = upstream_failure_response(&chain);
    assert_eq!(e.status, 504);
    assert_eq!(
        e.body,
        "{\"detail\":\"deadline elapsed\",\"error\":\"upstream_timeout\"}"
    );
}

#[test]
fn connection_refused_is_502_with_scrubbed_detail() {
    let chain = vec![
        link("request to https://api.example.com/v1/secret?key=abc123 failed", false, false),
        link(
            "connect error for https://api.example.com/v1/secret?key=abc123 refused",
            false,
            false,
        ),
    ];
    let e = upstream_failure_response(&chain);
    assert_eq!(e.status, 502);
    assert_eq!(
        e.body,
        "{\"detail\":\"connect error for api.example.com refused\",\
         \"error\":\"upstream_connection_failed\"}"
    );
    assert!(!e.body.contains("/v1/secret"));
    assert!(!e.body.contains("key=abc123"));
    assert!(e.body.contains("api.example.com"));
}

#[test]
fn auth_failure_detail_is_kept_verbatim() {
    let e = error_response(401, "authentication_failed", "signature expired at 17:00");
    assert_eq!(e.status, 401);
    assert_eq!(
        e.body,
        "{\"detail\":\"signature expired at 17:00\",\"error\":\"authentication_failed\"}"
    );
}
