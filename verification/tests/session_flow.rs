use oauth_loopback::ports::{PortScan, StartError};
use oauth_loopback::registry::{active_nonces, NonceRegistry};
use oauth_loopback::session::{start_oauth_server, Arrival, Session, ATTEMPT_CEILING, FLUSH_DELAY_MS};

#[test]
fn start_registers_exactly_the_returned_nonce() {
    let mut registry = active_nonces();
    assert_eq!(registry.len(), 0);
    let mut scan = PortScan::new();
    scan.reject();
    scan.reject();
    let started = start_oauth_server(&mut registry, &scan, 0x1f, 11).unwrap();
    assert_eq!(started.port, 17902);
    assert_eq!(started.nonce, "1f11");
    assert_eq!(started.session.port(), 17902);
    assert_eq!(started.session.remaining_attempts(), 10);
    assert!(!started.session.is_closed());
    assert_eq!(registry.len(), 1);
    assert_eq!(registry.expected(17902).map(|t| t.as_str()), Some("1f11"));
    assert!(!registry.contains(17900));
}

#[test]
fn start_overwrites_a_stale_entry_of_the_port() {
    let mut registry = NonceRegistry::new();
    registry.register(17900, "stale".to_string());
    let started = start_oauth_server(&mut registry, &PortScan::new(), 0xff, 2).unwrap();
    assert_eq!(started.port, 17900);
    assert_eq!(registry.len(), 1);
    assert_eq!(registry.expected(17900).map(|t| t.as_str()), Some("ff2"));
}

#[test]
fn start_fails_when_the_range_is_exhausted() {
    let mut registry = active_nonces();
    let mut scan = PortScan::new();
    for _ in 0..100 {
        scan.reject();
    }
    let error = start_oauth_server(&mut registry, &scan, 1, 1).err().unwrap();
    assert_eq!(error, StartError::NoAvailablePort);
    assert_eq!(error.message(), "No available ports in range 17900-17999");
    assert_eq!(registry.len(), 0);
}

#[test]
fn ten_arrivals_without_success_close_the_session() {
    let mut registry = active_nonces();
    let started = start_oauth_server(&mut registry, &PortScan::new(), 0xabc12, 3).unwrap();
    let mut session = started.session;
    let wrong = r#"{"code":"c","nonce":"wrong","state":"s"}"#;
    for taken in 1..=10u8 {
        assert!(!session.is_closed());
        let step = session.process(&mut registry, &Arrival::Post { body: Some(wrong.to_string()) });
        assert_eq!(step.reply.unwrap().status, 403);
        assert!(step.event.is_none());
        assert_eq!(session.remaining_attempts(), 10 - taken);
        assert_eq!(step.closed, taken == 10);
    }
    assert!(session.is_closed());
    // The entry is never cleaned up when no delivery validates.
    assert!(registry.contains(17900));
    // Even the right nonce comes too late now.
    let right = r#"{"code":"c","nonce":"abc123","state":"s"}"#;
    let step = session.process(&mut registry, &Arrival::Post { body: Some(right.to_string()) });
    assert!(step.reply.is_none());
    assert!(step.event.is_none());
    assert!(step.closed);
    assert!(registry.contains(17900));
}

#[test]
fn every_kind_of_arrival_costs_an_attempt() {
    let mut registry = active_nonces();
    let mut session = Session::open(17900);
    assert_eq!(ATTEMPT_CEILING, 10);

    let step = session.process(&mut registry, &Arrival::AcceptFailed);
    assert!(step.reply.is_none() && step.event.is_none() && !step.closed);
    assert_eq!(session.remaining_attempts(), 9);

    let step = session.process(&mut registry, &Arrival::Other);
    assert!(step.reply.is_none() && step.event.is_none() && !step.closed);
    assert_eq!(session.remaining_attempts(), 8);

    let step = session.process(&mut registry, &Arrival::Options);
    assert_eq!(step.reply.unwrap().status, 204);
    assert!(step.event.is_none() && !step.closed);
    assert_eq!(session.remaining_attempts(), 7);

    let step = session.process(&mut registry, &Arrival::Post { body: None });
    assert_eq!(step.reply.unwrap().status, 400);
    assert_eq!(session.remaining_attempts(), 6);
    assert_eq!(step.linger_ms, 0);
}

#[test]
fn preflight_then_delivery_is_the_usual_flow() {
    let mut registry = active_nonces();
    let started = start_oauth_server(&mut registry, &PortScan::new(), 0xabc12, 3).unwrap();
    let mut session = started.session;
    let step = session.process(&mut registry, &Arrival::Options);
    assert_eq!(step.reply.unwrap().status, 204);
    assert!(!step.closed);
    let body = format!(r#"{{"code":"k","nonce":"{}","state":"st"}}"#, started.nonce);
    let step = session.process(&mut registry, &Arrival::Post { body: Some(body) });
    assert_eq!(step.reply.unwrap().status, 200);
    assert_eq!(step.linger_ms, FLUSH_DELAY_MS);
    assert!(step.closed);
    assert_eq!(session.remaining_attempts(), 8);
}

#[test]
fn success_on_the_last_attempt_still_counts() {
    let mut registry = active_nonces();
    let started = start_oauth_server(&mut registry, &PortScan::new(), 0xabc12, 3).unwrap();
    let mut session = started.session;
    for _ in 0..9 {
        let step = session.process(&mut registry, &Arrival::Options);
        assert!(!step.closed);
    }
    let right = r#"{"code":"c","nonce":"abc123","state":"s"}"#;
    let step = session.process(&mut registry, &Arrival::Post { body: Some(right.to_string()) });
    assert_eq!(step.reply.unwrap().status, 200);
    assert!(step.event.is_some());
    assert!(step.closed);
    assert!(!registry.contains(17900));
}

#[test]
fn sessions_on_different_ports_share_only_the_registry() {
    let mut registry = active_nonces();
    let first = start_oauth_server(&mut registry, &PortScan::new(), 0xa, 1).unwrap();
    let mut scan = PortScan::new();
    scan.reject();
    let second = start_oauth_server(&mut registry, &scan, 0xb, 2).unwrap();
    assert_eq!((first.port, second.port), (17900, 17901));
    assert_eq!(registry.len(), 2);

    // The nonce of one session does not open the other.
    let mut other = second.session;
    let body = format!(r#"{{"code":"c","nonce":"{}","state":"s"}}"#, first.nonce);
    let step = other.process(&mut registry, &Arrival::Post { body: Some(body) });
    assert_eq!(step.reply.unwrap().status, 403);
    assert_eq!(registry.len(), 2);

    let mut one = first.session;
    let body = format!(r#"{{"code":"c","nonce":"{}","state":"s"}}"#, first.nonce);
    let step = one.process(&mut registry, &Arrival::Post { body: Some(body) });
    assert_eq!(step.reply.unwrap().status, 200);
    assert_eq!(registry.len(), 1);
    assert!(registry.contains(17901));
}
