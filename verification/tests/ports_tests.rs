use grf::errors::Error;
use grf::ports::{host_port, DEFAULT_HOST_PORT, DIAGNOSTIC_PORT};

#[test]
fn default_mode_uses_the_fixed_port() {
    let a = host_port(false, None).unwrap();
    assert_eq!(a.host_port, DEFAULT_HOST_PORT);
    let b = host_port(false, Some(45678)).unwrap();
    assert_eq!(b.host_port, DEFAULT_HOST_PORT);
}

#[test]
fn random_mode_uses_the_ephemeral_port() {
    let a = host_port(true, Some(45678)).unwrap();
    assert_eq!(a.host_port, 45678);
}

#[test]
fn an_accepted_port_is_never_zero_or_the_diagnostic_port() {
    for ephemeral in [None, Some(0), Some(DIAGNOSTIC_PORT), Some(1024), Some(65535)] {
        for random in [false, true] {
            if let Ok(a) = host_port(random, ephemeral) {
                assert_ne!(a.host_port, 0);
                assert_ne!(a.host_port, DIAGNOSTIC_PORT);
            }
        }
    }
}

#[test]
fn zero_and_diagnostic_ports_are_rejected_in_random_mode() {
    assert!(matches!(host_port(true, Some(0)), Err(Error::PortAllocationError { .. })));
    assert!(matches!(
        host_port(true, Some(DIAGNOSTIC_PORT)),
        Err(Error::PortAllocationError { .. })
    ));
}

#[test]
fn failed_allocation_is_a_port_allocation_error() {
    let r = host_port(true, None);
    match r {
        Err(e @ Error::PortAllocationError { .. }) => {
            assert!(e.describe().starts_with("port allocation failed: "));
        },
        _ => panic!("expected a port allocation error"),
    }
}
