//! The connect sequencer on concrete event sequences.

use tcp_provider::connect::{connect_step, ConnectEvent, ConnectState};

const ECONNREFUSED: i32 = 111;
const EMFILE: i32 = 24;

#[test]
fn connect_success_path() {
    let s: ConnectState<i32> = ConnectState::Registering;
    let s = connect_step(s, ConnectEvent::Registered);
    assert_eq!(s, ConnectState::AwaitingWritable);
    let s = connect_step(s, ConnectEvent::Writable);
    assert_eq!(s, ConnectState::CheckingPendingError);
    // The pending-error query of a successful connect comes back empty.
    let s = connect_step(s, ConnectEvent::ErrorQueried(None));
    assert_eq!(s, ConnectState::Connected);
}

#[test]
fn connect_refused_after_writable() {
    // Connect to an address with no listener: writability fires, then the
    // pending-error query reports connection-refused, and the attempt
    // resolves to exactly that error.
    let s: ConnectState<i32> = ConnectState::Registering;
    let s = connect_step(s, ConnectEvent::Registered);
    let s = connect_step(s, ConnectEvent::Writable);
    let s = connect_step(s, ConnectEvent::ErrorQueried(Some(ECONNREFUSED)));
    assert_eq!(s, ConnectState::Failed(ECONNREFUSED));
}

#[test]
fn connect_registration_failure_is_fatal() {
    // The reactor cannot watch the socket (e.g. descriptor watch limits):
    // surfaced immediately, no retry.
    let s: ConnectState<i32> = ConnectState::Registering;
    let s = connect_step(s, ConnectEvent::RegisterFailed(EMFILE));
    assert_eq!(s, ConnectState::Failed(EMFILE));
}

#[test]
fn connect_writability_wait_failure() {
    let s: ConnectState<i32> = ConnectState::Registering;
    let s = connect_step(s, ConnectEvent::Registered);
    let s = connect_step(s, ConnectEvent::WritableWaitFailed(5));
    assert_eq!(s, ConnectState::Failed(5));
}

#[test]
fn connect_error_query_failure() {
    let s: ConnectState<i32> = ConnectState::Registering;
    let s = connect_step(s, ConnectEvent::Registered);
    let s = connect_step(s, ConnectEvent::Writable);
    let s = connect_step(s, ConnectEvent::ErrorQueryFailed(9));
    assert_eq!(s, ConnectState::Failed(9));
}
