use oauth_loopback::ports::{PortScan, StartError, OAUTH_PORT_MAX, OAUTH_PORT_MIN};
use oauth_loopback::registry::{active_nonces, NonceRegistry};

#[test]
fn scan_walks_the_range_in_ascending_order() {
    assert_eq!((OAUTH_PORT_MIN, OAUTH_PORT_MAX), (17900, 17999));
    let mut scan = PortScan::new();
    for expected in 17900..=17999u16 {
        assert_eq!(scan.candidate(), Some(expected));
        assert_eq!(scan.bound(), Ok(expected));
        // Asking twice does not move the scan.
        assert_eq!(scan.candidate(), Some(expected));
        scan.reject();
    }
    assert_eq!(scan.candidate(), None);
    assert_eq!(scan.bound(), Err(StartError::NoAvailablePort));
    scan.reject();
    assert_eq!(scan.candidate(), None);
}

#[test]
fn the_first_port_that_binds_is_taken() {
    // Ports 17900..17904 are busy, 17905 is free.
    let busy = |port: u16| port < 17905;
    let mut scan = PortScan::new();
    while let Some(port) = scan.candidate() {
        if !busy(port) {
            break;
        }
        scan.reject();
    }
    assert_eq!(scan.bound(), Ok(17905));
}

#[test]
fn start_error_names_the_range() {
    assert_eq!(StartError::NoAvailablePort.message(), "No available ports in range 17900-17999");
}

#[test]
fn registry_insert_lookup_remove() {
    let mut registry = active_nonces();
    assert_eq!(registry.len(), 0);
    assert!(!registry.contains(17900));
    assert!(registry.expected(17900).is_none());

    registry.register(17900, "one".to_string());
    registry.register(17901, "two".to_string());
    assert_eq!(registry.len(), 2);
    assert_eq!(registry.expected(17900).map(|t| t.as_str()), Some("one"));

    // A new token for the same port replaces the old one.
    registry.register(17900, "uno".to_string());
    assert_eq!(registry.len(), 2);
    assert!(!registry.validate_and_consume(17900, "one"));
    assert_eq!(registry.len(), 2);
    assert!(registry.validate_and_consume(17900, "uno"));
    assert_eq!(registry.len(), 1);
    assert!(!registry.contains(17900));

    // Consumed: the same token does not validate twice.
    assert!(!registry.validate_and_consume(17900, "uno"));
    // A token is bound to its port.
    assert!(!registry.validate_and_consume(17902, "two"));
    assert!(registry.validate_and_consume(17901, "two"));
    assert_eq!(registry.len(), 0);
}

#[test]
fn registries_are_independent() {
    let mut one = NonceRegistry::new();
    let mut two = NonceRegistry::new();
    one.register(17900, "a".to_string());
    assert!(!two.validate_and_consume(17900, "a"));
    assert!(one.validate_and_consume(17900, "a"));
}
