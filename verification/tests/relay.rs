//! Scenarios of the relay state machine: byte preservation, ordering and
//! independent half-close.

use socks::relay::Relay;
use socks::relay::RelayEvent;

#[test]
fn bytes_pass_through_unchanged_and_in_order() {
    let mut r = Relay::new();
    let out = r.step(RelayEvent::FromClient(vec![1, 2, 3]));
    assert_eq!(out.to_remote, Some(vec![1, 2, 3]));
    assert_eq!(out.to_client, None);
    assert!(!out.shutdown_remote && !out.shutdown_client);

    let out = r.step(RelayEvent::FromRemote(vec![9, 8]));
    assert_eq!(out.to_client, Some(vec![9, 8]));
    assert_eq!(out.to_remote, None);

    let out = r.step(RelayEvent::FromClient(vec![4]));
    assert_eq!(out.to_remote, Some(vec![4]));
}

#[test]
fn half_close_is_independent() {
    let mut r = Relay::new();
    let out = r.step(RelayEvent::ClientEof);
    assert!(out.shutdown_remote);
    assert!(!out.shutdown_client);
    assert!(!r.finished());

    // The client-to-remote direction is gone; its bytes are dropped.
    let out = r.step(RelayEvent::FromClient(vec![1]));
    assert_eq!(out.to_remote, None);

    // The other direction still carries bytes.
    let out = r.step(RelayEvent::FromRemote(vec![7]));
    assert_eq!(out.to_client, Some(vec![7]));

    let out = r.step(RelayEvent::RemoteEof);
    assert!(out.shutdown_client);
    assert!(r.finished());
}
