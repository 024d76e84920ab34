use oauth_loopback::callback::handle_post;
use oauth_loopback::ports::PortScan;
use oauth_loopback::registry::active_nonces;
use oauth_loopback::session::{start_oauth_server, Arrival};

fn header<'a>(headers: &'a [oauth_loopback::reply::HeaderLine], name: &str) -> Option<&'a str> {
    headers.iter().find(|line| line.name == name).map(|line| line.value.as_str())
}

#[test]
fn accepted_delivery_publishes_the_callback_url_once() {
    let mut registry = active_nonces();
    let scan = PortScan::new();
    let started = start_oauth_server(&mut registry, &scan, 0xabc12, 3).unwrap();
    assert_eq!(started.port, 17900);
    assert_eq!(started.nonce, "abc123");
    let mut session = started.session;

    let body = r#"{"code":"authcode1","nonce":"abc123","state":"xyz"}"#;
    let step = session.process(&mut registry, &Arrival::Post { body: Some(body.to_string()) });
    let reply = step.reply.unwrap();
    assert_eq!(reply.status, 200);
    assert_eq!(reply.body.as_deref(), Some(r#"{"success":true}"#));
    assert_eq!(header(&reply.headers, "Content-Length"), Some("16"));
    let event = step.event.unwrap();
    assert_eq!(event.name, "oauth-callback");
    assert_eq!(event.payload, "http://localhost:17900?code=authcode1&state=xyz");
    assert_eq!(step.linger_ms, 500);
    assert!(step.closed);
    assert!(session.is_closed());
    assert!(!registry.contains(17900));
    assert_eq!(registry.len(), 0);

    // The same delivery again: the entry is consumed, so it is turned down.
    let again = handle_post(&mut registry, 17900, Some(body));
    assert_eq!(again.reply.status, 403);
    assert_eq!(again.reply.body.as_deref(), Some(r#"{"error":"Invalid nonce"}"#));
    assert!(again.event.is_none());

    // And the session itself takes nothing any more.
    let late = session.process(&mut registry, &Arrival::Post { body: Some(body.to_string()) });
    assert!(late.reply.is_none());
    assert!(late.event.is_none());
    assert!(late.closed);
}

#[test]
fn wrong_nonce_is_forbidden_and_keeps_the_entry() {
    let mut registry = active_nonces();
    let scan = PortScan::new();
    let started = start_oauth_server(&mut registry, &scan, 0xabc12, 3).unwrap();
    let mut session = started.session;

    let body = r#"{"code":"c","nonce":"wrong","state":"s"}"#;
    let step = session.process(&mut registry, &Arrival::Post { body: Some(body.to_string()) });
    let reply = step.reply.unwrap();
    assert_eq!(reply.status, 403);
    assert_eq!(reply.body.as_deref(), Some(r#"{"error":"Invalid nonce"}"#));
    assert!(step.event.is_none());
    assert_eq!(step.linger_ms, 0);
    assert!(!step.closed);
    assert!(registry.contains(17900));
    assert_eq!(registry.expected(17900).map(|t| t.as_str()), Some("abc123"));
    assert_eq!(session.remaining_attempts(), 9);

    // The session is still open: the right nonce succeeds afterwards.
    let retry = r#"{"code":"c","nonce":"abc123","state":"s"}"#;
    let step = session.process(&mut registry, &Arrival::Post { body: Some(retry.to_string()) });
    assert_eq!(step.reply.unwrap().status, 200);
    assert_eq!(step.event.unwrap().payload, "http://localhost:17900?code=c&state=s");
}

#[test]
fn nonce_is_compared_case_sensitively() {
    let mut registry = active_nonces();
    registry.register(17900, "abc123".to_string());
    let body = r#"{"code":"c","nonce":"ABC123","state":"s"}"#;
    let outcome = handle_post(&mut registry, 17900, Some(body));
    assert_eq!(outcome.reply.status, 403);
    assert!(outcome.event.is_none());
    assert!(registry.contains(17900));
}

#[test]
fn malformed_bodies_get_their_documented_replies() {
    let mut registry = active_nonces();
    registry.register(17900, "abc123".to_string());
    let cases: [(Option<&str>, u16, &str); 4] = [
        (Some("not-json"), 400, r#"{"error":"Invalid JSON"}"#),
        (Some(r#"{"code":"x"}"#), 400, r#"{"error":"Missing fields"}"#),
        (Some(r#"{"code":"c","nonce":"nope","state":"s"}"#), 403, r#"{"error":"Invalid nonce"}"#),
        (None, 400, r#"{"error":"Failed to read body"}"#),
    ];
    for (body, status, text) in cases {
        let outcome = handle_post(&mut registry, 17900, body);
        assert_eq!(outcome.reply.status, status);
        assert_eq!(outcome.reply.body.as_deref(), Some(text));
        assert!(outcome.event.is_none());
        let headers = &outcome.reply.headers;
        assert_eq!(header(headers, "Access-Control-Allow-Origin"), Some("*"));
        assert_eq!(header(headers, "Access-Control-Allow-Methods"), Some("POST, OPTIONS"));
        assert_eq!(header(headers, "Access-Control-Allow-Headers"), Some("Content-Type"));
        assert_eq!(header(headers, "Content-Type"), Some("application/json"));
        assert_eq!(header(headers, "Connection"), Some("close"));
        assert_eq!(header(headers, "Access-Control-Max-Age"), None);
        assert!(registry.contains(17900));
    }
}

#[test]
fn missing_fields_are_reported_before_the_nonce_is_looked_at() {
    let mut registry = active_nonces();
    registry.register(17900, "abc123".to_string());
    let bodies = [
        r#"{"nonce":"abc123","state":"s"}"#,
        r#"{"code":"c","state":"s"}"#,
        r#"{"code":"c","nonce":"abc123"}"#,
        r#"{"code":1,"nonce":"abc123","state":"s"}"#,
        r#"{"code":"c","nonce":"abc123","state":null}"#,
        r#"{"code":"c","nonce":["abc123"],"state":"s"}"#,
        r#"{}"#,
        r#"[{"code":"c","nonce":"abc123","state":"s"}]"#,
        r#""abc123""#,
        r#"42"#,
        r#"null"#,
    ];
    for body in bodies {
        let outcome = handle_post(&mut registry, 17900, Some(body));
        assert_eq!(outcome.reply.status, 400, "{body}");
        assert_eq!(outcome.reply.body.as_deref(), Some(r#"{"error":"Missing fields"}"#));
        assert!(registry.contains(17900));
    }
}

#[test]
fn texts_that_are_no_json_are_invalid() {
    let mut registry = active_nonces();
    registry.register(17900, "abc123".to_string());
    let bodies = [
        "",
        "   ",
        "{",
        r#"{"code":"c","nonce":"abc123","state":"s"} trailing"#,
        r#"{'code':'c'}"#,
        r#"{"code":"c",}"#,
    ];
    for body in bodies {
        let outcome = handle_post(&mut registry, 17900, Some(body));
        assert_eq!(outcome.reply.status, 400, "{body}");
        assert_eq!(outcome.reply.body.as_deref(), Some(r#"{"error":"Invalid JSON"}"#));
        assert!(registry.contains(17900));
    }
}

#[test]
fn delivery_for_a_port_without_entry_is_forbidden() {
    let mut registry = active_nonces();
    registry.register(17901, "abc123".to_string());
    let body = r#"{"code":"c","nonce":"abc123","state":"s"}"#;
    let outcome = handle_post(&mut registry, 17900, Some(body));
    assert_eq!(outcome.reply.status, 403);
    assert!(outcome.event.is_none());
    assert!(registry.contains(17901));
    assert_eq!(registry.len(), 1);
}

#[test]
fn code_and_state_are_percent_encoded_in_the_event() {
    let mut registry = active_nonces();
    registry.register(17950, "n".to_string());
    let body = r#"{"code":"a b&c=d/é","nonce":"n","state":"x+y?z~-._"}"#;
    let outcome = handle_post(&mut registry, 17950, Some(body));
    assert_eq!(outcome.reply.status, 200);
    assert_eq!(
        outcome.event.unwrap().payload,
        "http://localhost:17950?code=a%20b%26c%3Dd%2F%C3%A9&state=x%2By%3Fz~-._"
    );
}

#[test]
fn json_escapes_and_duplicate_keys_are_read_as_serde_json_reads_them() {
    let mut registry = active_nonces();
    registry.register(17900, "a\"b".to_string());
    let body = r#"{"code":"first","code":"second","nonce":"a\"b","state":"A"}"#;
    let outcome = handle_post(&mut registry, 17900, Some(body));
    assert_eq!(outcome.reply.status, 200);
    assert_eq!(outcome.event.unwrap().payload, "http://localhost:17900?code=second&state=A");
}
