use aether_delegate::target::{
    check_method, check_target_uri, on_target_validation, resolve_target,
};

#[test]
fn resolve_uses_scheme_default_port_for_https() {
    let t = resolve_target("https://api.example.com/v1/x").ok().unwrap();
    assert_eq!(t.host, "api.example.com");
    assert_eq!(t.port, 443);
}

#[test]
fn resolve_uses_explicit_port() {
    let t = resolve_target("https://blocked.internal:22/").ok().unwrap();
    assert_eq!(t.host, "blocked.internal");
    assert_eq!(t.port, 22);
}

#[test]
fn resolve_uses_scheme_default_port_for_http_and_ftp() {
    assert_eq!(resolve_target("http://a.example/x").ok().unwrap().port, 80);
    assert_eq!(resolve_target("ftp://a.example/x").ok().unwrap().port, 21);
}

#[test]
fn resolve_rejects_unparsable_url_with_parser_message() {
    let e = resolve_target("not a url").err().unwrap();
    assert_eq!(e.status, 400);
    let parser_msg = url::Url::parse("not a url").unwrap_err().to_string();
    assert_eq!(
        e.body,
        format!("{{\"detail\":\"invalid URL: {}\",\"error\":\"bad_request\"}}", parser_msg)
    );
}

#[test]
fn resolve_rejects_url_without_host() {
    let e = resolve_target("data:text/plain,hello").err().unwrap();
    assert_eq!(e.status, 400);
    assert_eq!(
        e.body,
        "{\"detail\":\"URL missing host\",\"error\":\"bad_request\"}"
    );
}

#[test]
fn validation_rejection_is_403_with_reason_verbatim() {
    let r = on_target_validation(&Err("port 22 not allowed".to_string()));
    let e = r.err().unwrap();
    assert_eq!(e.status, 403);
    assert_eq!(
        e.body,
        "{\"detail\":\"port 22 not allowed\",\"error\":\"target_not_allowed\"}"
    );
}

#[test]
fn validation_pass_continues() {
    assert!(on_target_validation(&Ok(())).is_ok());
}

#[test]
fn method_token_accepted_and_rejected() {
    assert!(check_method("POST").is_ok());
    assert!(check_method("PATCH").is_ok());
    let e = check_method("B@D").err().unwrap();
    assert_eq!(e.status, 400);
    let parser_msg = "B@D".parse::<hyper::Method>().unwrap_err().to_string();
    assert_eq!(
        e.body,
        format!("{{\"detail\":\"invalid method: {}\",\"error\":\"bad_request\"}}", parser_msg)
    );
}

#[test]
fn target_uri_accepted_and_rejected() {
    assert!(check_target_uri("https://api.example.com/v1/x").is_ok());
    let e = check_target_uri("http://[half-open").err().unwrap();
    assert_eq!(e.status, 400);
    let parser_msg = "http://[half-open".parse::<hyper::Uri>().unwrap_err().to_string();
    assert_eq!(
        e.body,
        format!("{{\"detail\":\"invalid URL: {}\",\"error\":\"bad_request\"}}", parser_msg)
    );
}
