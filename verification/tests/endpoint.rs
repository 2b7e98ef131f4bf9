//! Tests of the address record and the endpoint protocol, the close-on-
//! failure guarantee included. The interface lookups run against the real
//! kernel name table.

use rawcan::{CanAddr, CanError, Endpoint, EndpointState, AF_CAN};

#[test]
fn address_family_is_af_can_after_default() {
    let addr = CanAddr::default();
    assert_eq!(addr.family, AF_CAN);
    assert_eq!(addr.family, 29);
    assert_eq!(addr.ifindex, 0);
}

#[test]
fn address_new_keeps_family_and_index() {
    let addr = CanAddr::new(7);
    assert_eq!(addr.family, AF_CAN);
    assert_eq!(addr.ifindex, 7);
}

#[test]
fn open_failure_reports_and_closes() {
    let mut ep = Endpoint::new();
    assert_eq!(ep.state, EndpointState::Unopened);
    let r = ep.handle_open(-1);
    assert_eq!(r, Err(CanError::SocketOpenFailed));
    assert_eq!(ep.state, EndpointState::Closed);
    // Nothing was opened, so nothing is owed a close.
    assert_eq!(ep.close(), None);
}

#[test]
fn bind_failure_surfaces_descriptor() {
    let mut ep = Endpoint::new();
    ep.handle_open(4).unwrap();
    assert_eq!(ep.state, EndpointState::Open);
    let f = ep.handle_bind(-1).unwrap_err();
    assert_eq!(f.error, CanError::BindFailed);
    assert_eq!(f.close_fd, Some(4));
    assert_eq!(ep.state, EndpointState::Closed);
}

#[test]
fn write_failure_surfaces_descriptor() {
    let mut ep = Endpoint::new();
    ep.handle_open(4).unwrap();
    ep.handle_bind(0).unwrap();
    assert_eq!(ep.state, EndpointState::Bound);
    // A partial write counts as a failure just as a negative return does.
    let f = ep.handle_write(15).unwrap_err();
    assert_eq!(f.error, CanError::WriteFailed);
    assert_eq!(f.close_fd, Some(4));
    assert_eq!(ep.state, EndpointState::Closed);
}

#[test]
fn write_success_keeps_socket_bound() {
    let mut ep = Endpoint::new();
    ep.handle_open(4).unwrap();
    ep.handle_bind(0).unwrap();
    ep.handle_write(16).unwrap();
    assert_eq!(ep.state, EndpointState::Bound);
    // The one descriptor opened comes back exactly once at close.
    assert_eq!(ep.close(), Some(4));
    assert_eq!(ep.state, EndpointState::Closed);
}

#[test]
fn close_is_idempotent() {
    let mut ep = Endpoint::new();
    ep.handle_open(4).unwrap();
    assert_eq!(ep.close(), Some(4));
    assert_eq!(ep.close(), None);
    assert_eq!(ep.state, EndpointState::Closed);
}

#[test]
fn missing_interface_is_not_found_and_closes() {
    let mut ep = Endpoint::new();
    ep.handle_open(3).unwrap();
    let f = ep.resolve("does_not_exist").unwrap_err();
    assert_eq!(f.error, CanError::InterfaceNotFound);
    assert_eq!(f.close_fd, Some(3));
    assert_eq!(ep.state, EndpointState::Closed);
}

#[test]
fn loopback_interface_resolves() {
    let mut ep = Endpoint::new();
    ep.handle_open(3).unwrap();
    let addr = ep.resolve("lo").unwrap();
    assert_eq!(addr.family, AF_CAN);
    assert!(addr.ifindex >= 1);
    assert_eq!(ep.state, EndpointState::Open);
}
