use xcode_discord_rpc::clock::{current_time, time_of_seconds};
use xcode_discord_rpc::connection::{ConnectionManager, ConnectionState, TransportError};

#[test]
fn connect_lifecycle() {
    let mut c = ConnectionManager::new();
    assert!(c.needs_connect());
    assert_eq!(c.ensure_connected(false), Err(TransportError::ConnectFailed));
    assert_eq!(c.state(), ConnectionState::Disconnected);
    assert_eq!(c.ensure_connected(true), Ok(true));
    assert_eq!(c.state(), ConnectionState::Connected);
    assert_eq!(c.ensure_connected(false), Ok(false));
    assert!(!c.needs_connect());
}

#[test]
fn publish_failure_disconnects() {
    let mut c = ConnectionManager::new();
    assert_eq!(c.publish_result(true), Err(TransportError::NotConnected));
    c.ensure_connected(true).unwrap();
    assert_eq!(c.publish_result(true), Ok(()));
    assert_eq!(c.publish_result(false), Err(TransportError::PublishFailed));
    assert_eq!(c.state(), ConnectionState::Disconnected);
}

#[test]
fn lost_connection() {
    let mut c = ConnectionManager::new();
    c.ensure_connected(true).unwrap();
    c.connection_lost();
    assert_eq!(c.state(), ConnectionState::Disconnected);
}

#[test]
fn clock_is_after_epoch() {
    let t = current_time().unwrap();
    assert!(t > 1_600_000_000);
}

#[test]
fn seconds_convert_to_time() {
    assert_eq!(time_of_seconds(0), Some(0));
    assert_eq!(time_of_seconds(1_700_000_000), Some(1_700_000_000));
    assert_eq!(time_of_seconds(i64::MAX as u64), Some(i64::MAX));
    assert_eq!(time_of_seconds(i64::MAX as u64 + 1), None);
    assert_eq!(time_of_seconds(u64::MAX), None);
}
