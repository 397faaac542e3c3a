use alexa_bridge::{
    prepare_request, Config, Directive, ErrorType, Failure, OutboundRequest, Scope, Step,
    ENDPOINT_PATH,
};
use serde_json::Value;

fn scope(scope_type: Option<&str>, token: Option<&str>) -> Scope {
    Scope {
        scope_type: scope_type.map(String::from),
        token: token.map(String::from),
    }
}

fn document(text: &str) -> Value {
    serde_json::from_str(text).unwrap()
}

fn directive(version: Option<&str>, endpoint: Option<Scope>, payload: Option<Scope>, grantee: Option<Scope>) -> Directive {
    Directive {
        document: document(r#"{"directive":{"header":{"payloadVersion":"3"}}}"#),
        payload_version: version.map(String::from),
        endpoint_scope: endpoint,
        payload_scope: payload,
        grantee,
    }
}

fn config(base_url: &str, fallback: Option<&str>) -> Config {
    Config {
        base_url: base_url.to_string(),
        fallback_token: fallback.map(String::from),
        accept_invalid_certs: false,
    }
}

fn sent(r: Result<Step, Failure>) -> OutboundRequest {
    match r {
        Ok(Step::Send(q)) => q,
        Ok(Step::Respond(e)) => panic!("answered at once: {}", e.message),
        Err(f) => panic!("failed: {:?}", f),
    }
}

fn answered(r: Result<Step, Failure>) -> (ErrorType, String) {
    match r {
        Ok(Step::Respond(e)) => (e.error_type, e.message),
        Ok(Step::Send(q)) => panic!("forwarded to {}", q.url),
        Err(f) => panic!("failed: {:?}", f),
    }
}

fn failed(r: Result<Step, Failure>) -> Failure {
    match r {
        Err(f) => f,
        Ok(_) => panic!("expected a failure"),
    }
}

fn bearer(token: Option<&str>) -> Option<Scope> {
    Some(scope(Some("BearerToken"), token))
}

#[test]
fn unsupported_version_is_answered_without_forwarding() {
    for version in ["2", "", "3.0", " 3"] {
        let d = directive(Some(version), bearer(Some("A")), None, None);
        let (kind, message) = answered(prepare_request(d, &config("http://host", None)));
        assert_eq!(kind, ErrorType::InvalidDirective);
        assert_eq!(kind.tag(), "INVALID_DIRECTIVE");
        assert_eq!(message, "Only payloadVersion 3 is supported");
    }
}

#[test]
fn missing_version_fails() {
    let d = directive(None, bearer(Some("A")), None, None);
    assert_eq!(failed(prepare_request(d, &config("http://host", None))), Failure::MissingPayloadVersion);
}

#[test]
fn unsupported_scope_is_answered_without_forwarding() {
    for scope_type in ["AWS", "bearertoken", ""] {
        let d = directive(Some("3"), Some(scope(Some(scope_type), Some("A"))), None, None);
        let (kind, message) = answered(prepare_request(d, &config("http://host", Some("B"))));
        assert_eq!(kind, ErrorType::InvalidScope);
        assert_eq!(kind.tag(), "INVALID_SCOPE");
        assert_eq!(message, "Only BearerToken is supported");
    }
}

#[test]
fn missing_scope_fails() {
    let d = directive(Some("3"), None, None, None);
    assert_eq!(failed(prepare_request(d, &config("http://host", Some("B")))), Failure::MissingScope);
}

#[test]
fn missing_scope_type_fails() {
    let d = directive(Some("3"), Some(scope(None, Some("A"))), None, None);
    assert_eq!(failed(prepare_request(d, &config("http://host", Some("B")))), Failure::MissingScopeType);
}

#[test]
fn scope_token_wins_over_fallback() {
    let d = directive(Some("3"), bearer(Some("A")), None, None);
    let q = sent(prepare_request(d, &config("http://host", Some("B"))));
    assert_eq!(q.authorization, "Bearer A");
}

#[test]
fn fallback_token_used_without_scope_token() {
    let d = directive(Some("3"), bearer(None), None, None);
    let q = sent(prepare_request(d, &config("http://host", Some("B"))));
    assert_eq!(q.authorization, "Bearer B");
}

#[test]
fn fallback_token_used_for_empty_scope_token() {
    let d = directive(Some("3"), bearer(Some("")), None, None);
    let q = sent(prepare_request(d, &config("http://host", Some("B"))));
    assert_eq!(q.authorization, "Bearer B");
}

#[test]
fn no_token_anywhere_fails() {
    let d = directive(Some("3"), bearer(None), None, None);
    assert_eq!(failed(prepare_request(d, &config("http://host", None))), Failure::MissingToken);
}

#[test]
fn endpoint_scope_wins_over_payload_scope() {
    let d = directive(Some("3"), bearer(Some("A")), Some(scope(Some("AWS"), Some("C"))), None);
    let q = sent(prepare_request(d, &config("http://host", None)));
    assert_eq!(q.authorization, "Bearer A");

    let d = directive(Some("3"), Some(scope(Some("AWS"), Some("C"))), bearer(Some("A")), None);
    let (kind, _) = answered(prepare_request(d, &config("http://host", None)));
    assert_eq!(kind, ErrorType::InvalidScope);
}

#[test]
fn payload_scope_then_grantee() {
    let d = directive(Some("3"), None, bearer(Some("P")), bearer(Some("G")));
    assert_eq!(sent(prepare_request(d, &config("http://host", None))).authorization, "Bearer P");

    let d = directive(Some("3"), None, None, bearer(Some("G")));
    assert_eq!(sent(prepare_request(d, &config("http://host", None))).authorization, "Bearer G");
}

#[test]
fn trailing_slash_does_not_change_target() {
    for base in ["http://host/", "http://host", "http://host///"] {
        let d = directive(Some("3"), bearer(Some("A")), None, None);
        let q = sent(prepare_request(d, &config(base, None)));
        assert_eq!(q.url, "http://host/api/alexa/smart_home");
    }
    assert_eq!(ENDPOINT_PATH, "/api/alexa/smart_home");
}

#[test]
fn request_carries_headers_timeout_and_document() {
    let text = r#"{"directive":{"header":{"payloadVersion":"3"},"endpoint":{"scope":{"type":"BearerToken","token":"A"}}}}"#;
    let d = Directive {
        document: document(text),
        payload_version: Some("3".to_string()),
        endpoint_scope: bearer(Some("A")),
        payload_scope: None,
        grantee: None,
    };
    let mut c = config("https://example.org:8123/", None);
    c.accept_invalid_certs = true;
    let q = sent(prepare_request(d, &c));
    assert_eq!(q.url, "https://example.org:8123/api/alexa/smart_home");
    assert_eq!(q.content_type, "application/json");
    assert_eq!(q.timeout_secs, 10);
    assert!(q.accept_invalid_certs);
    assert_eq!(q.body, document(text));
}
