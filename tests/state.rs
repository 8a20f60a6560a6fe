use rustmann::state::{Acquire, ClientState, ConnectionSlot, ConnectionState};
use rustmann::FailureKind;

#[test]
fn ten_first_callers_share_one_connect() {
    let mut conn = ConnectionState::new();
    let mut told = Vec::new();
    for _ in 0..10 {
        told.push(conn.acquire());
    }
    assert_eq!(told[0], Acquire::StartConnect(0));
    for t in &told[1..] {
        assert_eq!(*t, Acquire::Wait(0));
    }
    let starts = told
        .iter()
        .filter(|t| matches!(t, Acquire::StartConnect(_)))
        .count();
    assert_eq!(starts, 1);
    conn.finish_connect(0, true);
    for _ in 0..10 {
        assert_eq!(conn.acquire(), Acquire::Ready(0));
    }
}

#[test]
fn failed_connect_lets_next_caller_retry() {
    let mut conn = ConnectionState::new();
    assert_eq!(conn.acquire(), Acquire::StartConnect(0));
    conn.finish_connect(0, false);
    assert_eq!(conn.state(), ClientState::Disconnected);
    assert_eq!(conn.acquire(), Acquire::StartConnect(1));
}

#[test]
fn io_failure_resets_and_reconnects() {
    let mut conn = ConnectionState::new();
    conn.acquire();
    conn.finish_connect(0, true);
    conn.report_failure(0, FailureKind::Io);
    assert_eq!(conn.state(), ClientState::Disconnected);
    assert_eq!(conn.acquire(), Acquire::StartConnect(1));
}

#[test]
fn codec_failure_resets() {
    let mut conn = ConnectionState::new();
    conn.acquire();
    conn.finish_connect(0, true);
    conn.report_failure(0, FailureKind::Codec);
    assert_eq!(conn.state(), ClientState::Disconnected);
}

#[test]
fn timeout_does_not_reset() {
    let mut conn = ConnectionState::new();
    conn.acquire();
    conn.finish_connect(0, true);
    conn.report_failure(0, FailureKind::Timeout);
    assert_eq!(conn.state(), ClientState::Connected(0));
    assert_eq!(conn.acquire(), Acquire::Ready(0));
}

#[test]
fn failure_on_old_transport_keeps_new_one() {
    let mut conn = ConnectionState::new();
    conn.acquire();
    conn.finish_connect(0, true);
    conn.report_failure(0, FailureKind::Io);
    assert_eq!(conn.acquire(), Acquire::StartConnect(1));
    conn.finish_connect(1, true);
    // a second caller that was still on transport 0 reports late
    conn.report_failure(0, FailureKind::Io);
    assert_eq!(conn.state(), ClientState::Connected(1));
}

#[test]
fn stale_connect_result_is_ignored() {
    let mut conn = ConnectionState::new();
    conn.acquire();
    conn.finish_connect(7, true);
    assert_eq!(conn.state(), ClientState::Connecting(0));
}

#[test]
fn slot_keeps_pending_connect_and_transport_in_step() {
    let mut slot: ConnectionSlot<&str, &str> = ConnectionSlot::new();
    assert!(slot.current().is_none());
    assert!(slot.pending().is_none());
    assert_eq!(slot.acquire("connect A"), Acquire::StartConnect(0));
    // later callers attach to the connect already under way
    assert_eq!(slot.acquire("connect B"), Acquire::Wait(0));
    assert_eq!(slot.pending(), Some(&"connect A"));
    slot.finish_connect(0, Some("socket A"));
    assert!(slot.pending().is_none());
    assert_eq!(slot.acquire("connect C"), Acquire::Ready(0));
    assert_eq!(slot.current(), Some(&"socket A"));
    slot.report_failure(0, FailureKind::Io);
    assert_eq!(slot.state(), ClientState::Disconnected);
    assert!(slot.current().is_none());
    assert_eq!(slot.acquire("connect D"), Acquire::StartConnect(1));
    assert_eq!(slot.pending(), Some(&"connect D"));
}

#[test]
fn slot_failed_connect_holds_nothing() {
    let mut slot: ConnectionSlot<u8, u8> = ConnectionSlot::new();
    assert_eq!(slot.acquire(1), Acquire::StartConnect(0));
    slot.finish_connect(0, None);
    assert_eq!(slot.state(), ClientState::Disconnected);
    assert!(slot.current().is_none());
    assert!(slot.pending().is_none());
    // a second waiter reporting the same outcome late changes nothing
    slot.finish_connect(0, Some(9));
    assert!(slot.current().is_none());
}
