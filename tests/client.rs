use rustmann::client::{
    check_query, events_request, events_result, finish_datagram, finish_events, finish_query,
    query_request, query_result, transport_kind, TransportKind,
};
use rustmann::state::{Acquire, ClientState, ConnectionSlot};
use rustmann::{EventBuilder, FailureKind, Msg, RiemannClientError, RiemannClientOptionsBuilder};

fn reply(ok: Option<bool>, error: Option<&str>) -> Msg {
    Msg {
        ok,
        error: error.map(|e| e.to_string()),
        events: Vec::new(),
        query: None,
    }
}

fn connected() -> ConnectionSlot<&'static str, ()> {
    let mut conn = ConnectionSlot::new();
    assert_eq!(conn.acquire(()), Acquire::StartConnect(0));
    conn.finish_connect(0, Some("socket 0"));
    conn
}

#[test]
fn events_request_carries_the_event() {
    let event = EventBuilder::new()
        .service("rustmann_test")
        .state("ok")
        .metric_f(123.4f32.to_bits())
        .build();
    let msg = events_request(vec![event]);
    assert_eq!(msg.events.len(), 1);
    assert_eq!(msg.events[0].service.as_deref(), Some("rustmann_test"));
    assert!(msg.ok.is_none());
    assert!(msg.query.is_none());
}

#[test]
fn ok_reply_is_success() {
    let mut conn = connected();
    let r = finish_events(&mut conn, 0, Ok(reply(Some(true), None)));
    assert!(r.is_ok());
    assert_eq!(conn.state(), ClientState::Connected(0));
}

#[test]
fn not_ok_reply_is_protocol_error_and_keeps_connection() {
    let mut conn = connected();
    let r = finish_events(&mut conn, 0, Ok(reply(Some(false), Some("boom"))));
    match r {
        Err(RiemannClientError::RiemannError(text)) => assert_eq!(text, "boom"),
        other => panic!("unexpected {:?}", other),
    }
    assert_eq!(conn.state(), ClientState::Connected(0));
    assert_eq!(conn.acquire(()), Acquire::Ready(0));
}

#[test]
fn missing_ok_is_protocol_error_with_empty_text() {
    match events_result(reply(None, None)) {
        Err(RiemannClientError::RiemannError(text)) => assert_eq!(text, ""),
        other => panic!("unexpected {:?}", other),
    }
}

#[test]
fn closed_connection_is_io_failure_and_reconnects() {
    let mut conn = connected();
    let failure = RiemannClientError::IoError(FailureKind::Io, "closed".to_string());
    let r = finish_events(&mut conn, 0, Err(failure));
    assert!(matches!(r, Err(RiemannClientError::IoError(FailureKind::Io, _))));
    assert_eq!(conn.acquire(()), Acquire::StartConnect(1));
    assert!(conn.current().is_none());
}

#[test]
fn reply_timeout_keeps_socket() {
    let mut conn = connected();
    let failure = RiemannClientError::IoError(FailureKind::Timeout, "deadline".to_string());
    let r = finish_events(&mut conn, 0, Err(failure));
    assert!(matches!(r, Err(RiemannClientError::IoError(FailureKind::Timeout, _))));
    assert_eq!(conn.acquire(()), Acquire::Ready(0));
    assert_eq!(conn.current(), Some(&"socket 0"));
    assert!(finish_events(&mut conn, 0, Ok(reply(Some(true), None))).is_ok());
}

#[test]
fn query_returns_reply_events() {
    let mut conn = connected();
    let mut answer = reply(Some(true), None);
    answer.events.push(EventBuilder::new().service("s1").build());
    answer.events.push(EventBuilder::new().service("s2").build());
    let events = finish_query(&mut conn, 0, Ok(answer)).unwrap();
    assert_eq!(events.len(), 2);
    assert_eq!(events[1].service.as_deref(), Some("s2"));
}

#[test]
fn query_not_ok_is_protocol_error() {
    match query_result(reply(Some(false), Some("parse error"))) {
        Err(RiemannClientError::RiemannError(text)) => assert_eq!(text, "parse error"),
        other => panic!("unexpected {:?}", other),
    }
}

#[test]
fn query_request_carries_string() {
    let msg = query_request("service = \"riemann_test\"");
    assert_eq!(
        msg.query.unwrap().string.as_deref(),
        Some("service = \"riemann_test\"")
    );
    assert!(msg.events.is_empty());
}

#[test]
fn query_refused_on_udp() {
    let options = RiemannClientOptionsBuilder::default().use_udp(true).build();
    let kind = transport_kind(&options);
    assert_eq!(kind, TransportKind::Udp);
    assert!(matches!(
        check_query(kind),
        Err(RiemannClientError::IoError(FailureKind::Unsupported, _))
    ));
    assert!(check_query(TransportKind::Plain).is_ok());
    assert!(check_query(TransportKind::Tls).is_ok());
}

#[test]
fn udp_send_succeeds_without_reply() {
    let mut conn = connected();
    assert!(finish_datagram(&mut conn, 0, Ok(())).is_ok());
    assert_eq!(conn.state(), ClientState::Connected(0));
}

#[test]
fn udp_send_failure_is_returned() {
    let mut conn = connected();
    let failure = RiemannClientError::IoError(FailureKind::Io, "unreachable".to_string());
    assert!(finish_datagram(&mut conn, 0, Err(failure)).is_err());
    assert_eq!(conn.state(), ClientState::Disconnected);
}

#[test]
fn transport_kind_follows_options() {
    let plain = RiemannClientOptionsBuilder::default().build();
    assert_eq!(transport_kind(&plain), TransportKind::Plain);
}
