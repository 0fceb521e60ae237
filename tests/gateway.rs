use paicord_rs::backoff::{backoff_delay, jittered_delay, BackoffState, ReconnectAction, ReconnectPolicy};
use paicord_rs::heartbeat::{
    first_heartbeat_delay, heartbeat_interval, HeartbeatTick, HeartbeatTimer,
    DEFAULT_HEARTBEAT_INTERVAL_MS,
};
use paicord_rs::manager::{Command, ConnectError, GatewayConfig, GatewayManager, StreamError};
use paicord_rs::queue::{CloseCause, EventQueue, Poll, PushError};
use paicord_rs::session::{FrameKind, InboundFrame, Session, SessionState, SideEffect};

fn ack(id: &str, interval: Option<u64>) -> InboundFrame {
    InboundFrame {
        kind: FrameKind::HandshakeAck { session_id: id.to_string(), heartbeat_interval_ms: interval },
        payload: String::new(),
    }
}

fn dispatch(payload: &str) -> InboundFrame {
    InboundFrame { kind: FrameKind::Dispatch, payload: payload.to_string() }
}

fn invalid(resumable: bool) -> InboundFrame {
    InboundFrame { kind: FrameKind::InvalidSession { resumable }, payload: String::new() }
}

fn live_manager(config: GatewayConfig, token: &str) -> GatewayManager {
    let mut m = GatewayManager::new(config);
    assert_eq!(m.connect(token.to_string()), Ok(Command::OpenTransport));
    assert_eq!(
        m.on_transport_opened(),
        Command::SendIdentify { token: token.to_string() }
    );
    assert_eq!(
        m.on_frame(ack("sess-1", Some(45000))),
        Command::StartHeartbeat { interval_ms: 45000 }
    );
    assert!(m.is_live());
    m
}

#[test]
fn backoff_delays_double_up_to_ceiling() {
    let got: Vec<u64> = (0..8).map(|a| backoff_delay(1000, 30000, a)).collect();
    assert_eq!(got, vec![1000, 2000, 4000, 8000, 16000, 30000, 30000, 30000]);
    assert_eq!(backoff_delay(50000, 30000, 0), 30000);
    assert_eq!(backoff_delay(1000, 30000, u32::MAX), 30000);
}

#[test]
fn policy_grows_delay_and_gives_up_at_limit() {
    let policy = ReconnectPolicy { base_delay_ms: 1000, max_delay_ms: 30000, max_attempts: 7 };
    let mut state = BackoffState::new();
    let mut delays = Vec::new();
    for _ in 0..7 {
        match policy.on_disconnect(&mut state, true) {
            ReconnectAction::ResumeSession { delay_ms } => delays.push(delay_ms),
            other => panic!("unexpected {:?}", other),
        }
    }
    assert_eq!(delays, vec![1000, 2000, 4000, 8000, 16000, 30000, 30000]);
    assert_eq!(policy.on_disconnect(&mut state, true), ReconnectAction::GiveUp);
    assert_eq!(state.attempt, 7);
    state.reset();
    assert_eq!(
        policy.on_disconnect(&mut state, false),
        ReconnectAction::FreshIdentify { delay_ms: 1000 }
    );
}

#[test]
fn default_policy_values() {
    let p = ReconnectPolicy::new();
    assert_eq!((p.base_delay_ms, p.max_delay_ms, p.max_attempts), (1000, 30000, 5));
}

#[test]
fn jitter_spreads_a_fifth_either_way() {
    assert_eq!(jittered_delay(1000, 0), 800);
    assert_eq!(jittered_delay(1000, 400), 1200);
    assert_eq!(jittered_delay(1000, 401), 800);
    assert_eq!(jittered_delay(1000, 200), 1000);
    assert_eq!(jittered_delay(4, 12345), 4);
}

#[test]
fn heartbeat_interval_precedence() {
    assert_eq!(heartbeat_interval(Some(5000), Some(41250)), 5000);
    assert_eq!(heartbeat_interval(Some(0), Some(30000)), 30000);
    assert_eq!(heartbeat_interval(None, None), DEFAULT_HEARTBEAT_INTERVAL_MS);
    assert_eq!(first_heartbeat_delay(1000, 2500), 500);
    assert_eq!(first_heartbeat_delay(1000, 999), 999);
}

#[test]
fn heartbeat_without_ack_is_liveness_failure() {
    let mut t = HeartbeatTimer::new();
    assert_eq!(t.tick(1), HeartbeatTick::Stopped);
    t.start(1000);
    assert_eq!(t.tick(10), HeartbeatTick::Send);
    assert_eq!(t.last_sent_at, Some(10));
    t.on_ack();
    assert_eq!(t.tick(1010), HeartbeatTick::Send);
    assert_eq!(t.tick(2010), HeartbeatTick::LivenessFailure);
    assert!(!t.running);
}

#[test]
fn queue_is_fifo_and_bounded() {
    let mut q = EventQueue::new(Some(2));
    assert_eq!(q.push("a".to_string()), Ok(()));
    assert_eq!(q.push("b".to_string()), Ok(()));
    assert_eq!(q.push("c".to_string()), Err(PushError::Full));
    assert!(matches!(q.pop(), Poll::Ready(e) if e == "a"));
    assert_eq!(q.push("d".to_string()), Ok(()));
    assert!(matches!(q.pop(), Poll::Ready(e) if e == "b"));
    assert!(matches!(q.pop(), Poll::Ready(e) if e == "d"));
    assert!(matches!(q.pop(), Poll::Pending));
    q.close(CloseCause::Requested);
    q.close(CloseCause::ReconnectExhausted);
    assert_eq!(q.push("e".to_string()), Err(PushError::Closed));
    assert!(matches!(q.pop(), Poll::Closed(CloseCause::Requested)));
}

#[test]
fn closed_queue_still_drains() {
    let mut q = EventQueue::new(None);
    q.push("x".to_string()).unwrap();
    q.close(CloseCause::Requested);
    assert!(matches!(q.pop(), Poll::Ready(e) if e == "x"));
    assert!(matches!(q.pop(), Poll::Closed(CloseCause::Requested)));
}

#[test]
fn session_counts_dispatches_and_resets() {
    let mut s = Session::new();
    assert!(matches!(s.submit_frame(dispatch("early")), SideEffect::NoOp));
    s.state = SessionState::Handshaking;
    assert!(matches!(s.submit_frame(ack("id-9", None)), SideEffect::CompleteHandshake));
    assert_eq!(s.state, SessionState::Live);
    for i in 0..3 {
        match s.submit_frame(dispatch(&format!("e{}", i))) {
            SideEffect::EnqueueEvent(e) => assert_eq!(e, format!("e{}", i)),
            other => panic!("unexpected {:?}", other),
        }
    }
    assert_eq!(s.sequence, Some(3));
    let hb = InboundFrame { kind: FrameKind::HeartbeatAck, payload: String::new() };
    assert!(matches!(s.submit_frame(hb), SideEffect::HeartbeatAcked));
    let bad = InboundFrame { kind: FrameKind::Malformed, payload: "??".to_string() };
    assert!(matches!(s.submit_frame(bad), SideEffect::NoOp));
    assert_eq!(s.sequence, Some(3));
    assert!(matches!(
        s.submit_frame(invalid(true)),
        SideEffect::RequestReconnect { resumable: true }
    ));
    assert_eq!(s.sequence, Some(3));
    assert_eq!(s.session_id, Some("id-9".to_string()));
    s.state = SessionState::Live;
    assert!(matches!(
        s.submit_frame(invalid(false)),
        SideEffect::RequestReconnect { resumable: false }
    ));
    assert_eq!(s.state, SessionState::Reconnecting);
    assert_eq!(s.sequence, None);
    assert_eq!(s.session_id, None);
}

#[test]
fn session_transport_closure_requests_resume_with_id() {
    let mut s = Session::new();
    assert!(matches!(s.on_transport_closed(), SideEffect::NoOp));
    s.state = SessionState::Handshaking;
    assert!(matches!(
        s.on_transport_closed(),
        SideEffect::RequestReconnect { resumable: false }
    ));
    s.state = SessionState::Live;
    s.session_id = Some("abc".to_string());
    assert!(matches!(
        s.on_transport_closed(),
        SideEffect::RequestReconnect { resumable: true }
    ));
}

#[test]
fn end_to_end_resume_keeps_every_event() {
    let mut m = live_manager(GatewayConfig::new(), "tok-A");
    assert_eq!(m.on_frame(dispatch("evt-1")), Command::Idle);
    assert_eq!(m.next_event(), Ok(Some("evt-1".to_string())));
    assert_eq!(m.next_event(), Ok(None));
    assert_eq!(m.on_transport_closed(), Command::Reconnect { delay_ms: 1000 });
    assert_eq!(m.state(), SessionState::Reconnecting);
    assert_eq!(m.sequence(), Some(1));
    assert_eq!(m.on_reconnect_due(), Command::OpenTransport);
    assert_eq!(
        m.on_transport_opened(),
        Command::SendResume { session_id: "sess-1".to_string(), sequence: Some(1) }
    );
    assert_eq!(
        m.on_frame(ack("sess-1", None)),
        Command::StartHeartbeat { interval_ms: DEFAULT_HEARTBEAT_INTERVAL_MS }
    );
    assert_eq!(m.reconnect_attempts(), 0);
    assert_eq!(m.on_frame(dispatch("evt-2")), Command::Idle);
    assert_eq!(m.next_event(), Ok(Some("evt-2".to_string())));
    assert_eq!(m.next_event(), Ok(None));
    assert_eq!(m.sequence(), Some(2));
}

#[test]
fn close_releases_waiting_consumer() {
    let mut m = live_manager(GatewayConfig::new(), "tok-A");
    assert_eq!(m.next_event(), Ok(None));
    assert_eq!(m.close(), Command::Shutdown(CloseCause::Requested));
    assert_eq!(m.next_event(), Err(StreamError::Closed(CloseCause::Requested)));
    assert_eq!(m.next_event(), Err(StreamError::Closed(CloseCause::Requested)));
    assert_eq!(m.close(), Command::Idle);
    assert_eq!(m.on_heartbeat_tick(100), Command::Idle);
    assert_eq!(m.on_reconnect_due(), Command::Idle);
    assert_eq!(m.connect("tok-A".to_string()), Err(ConnectError::Closed));
}

#[test]
fn exhaustion_after_three_failed_reconnects() {
    let mut config = GatewayConfig::new();
    config.max_reconnect_attempts = 3;
    let mut m = live_manager(config, "tok-A");
    assert_eq!(m.on_transport_closed(), Command::Reconnect { delay_ms: 1000 });
    assert_eq!(m.on_reconnect_due(), Command::OpenTransport);
    assert_eq!(m.on_transport_failed(), Command::Reconnect { delay_ms: 2000 });
    assert_eq!(m.on_reconnect_due(), Command::OpenTransport);
    assert_eq!(m.on_transport_failed(), Command::Reconnect { delay_ms: 4000 });
    assert_eq!(m.on_reconnect_due(), Command::OpenTransport);
    assert_eq!(
        m.on_transport_failed(),
        Command::Shutdown(CloseCause::ReconnectExhausted)
    );
    assert_eq!(m.state(), SessionState::Closed);
    assert_eq!(m.close_cause(), Some(CloseCause::ReconnectExhausted));
    assert_eq!(
        m.next_event(),
        Err(StreamError::Closed(CloseCause::ReconnectExhausted))
    );
}

#[test]
fn connect_while_live_is_a_no_op() {
    let mut m = live_manager(GatewayConfig::new(), "tok-A");
    assert_eq!(m.connect("tok-A".to_string()), Ok(Command::Idle));
    assert!(m.is_live());
    let mut c = GatewayManager::new(GatewayConfig::new());
    assert_eq!(c.connect("t".to_string()), Ok(Command::OpenTransport));
    assert_eq!(c.connect("t".to_string()), Ok(Command::Idle));
    assert_eq!(c.state(), SessionState::Connecting);
}

#[test]
fn non_resumable_invalidation_identifies_afresh() {
    let mut m = live_manager(GatewayConfig::new(), "tok-B");
    m.on_frame(dispatch("a"));
    m.on_frame(dispatch("b"));
    assert_eq!(m.sequence(), Some(2));
    assert_eq!(m.on_frame(invalid(false)), Command::Reconnect { delay_ms: 1000 });
    assert_eq!(m.sequence(), None);
    assert!(!m.has_session_id());
    assert_eq!(m.on_reconnect_due(), Command::OpenTransport);
    assert_eq!(
        m.on_transport_opened(),
        Command::SendIdentify { token: "tok-B".to_string() }
    );
    assert_eq!(m.next_event(), Ok(Some("a".to_string())));
    assert_eq!(m.next_event(), Ok(Some("b".to_string())));
}

#[test]
fn resumable_invalidation_resumes() {
    let mut m = live_manager(GatewayConfig::new(), "tok-B");
    m.on_frame(dispatch("a"));
    assert_eq!(m.on_frame(invalid(true)), Command::Reconnect { delay_ms: 1000 });
    assert_eq!(m.sequence(), Some(1));
    assert_eq!(m.on_reconnect_due(), Command::OpenTransport);
    assert_eq!(
        m.on_transport_opened(),
        Command::SendResume { session_id: "sess-1".to_string(), sequence: Some(1) }
    );
}

#[test]
fn first_connect_failures() {
    let mut m = GatewayManager::new(GatewayConfig::new());
    m.connect("bad".to_string()).unwrap();
    assert_eq!(m.on_transport_failed(), Command::ConnectFailed(ConnectError::Unreachable));
    assert_eq!(m.state(), SessionState::Idle);
    m.connect("bad".to_string()).unwrap();
    m.on_transport_opened();
    assert_eq!(
        m.on_frame(invalid(false)),
        Command::ConnectFailed(ConnectError::HandshakeFailed)
    );
    assert_eq!(m.state(), SessionState::Idle);
    m.connect("bad".to_string()).unwrap();
    m.on_transport_opened();
    assert_eq!(
        m.on_transport_closed(),
        Command::ConnectFailed(ConnectError::HandshakeFailed)
    );
    assert_eq!(m.reconnect_attempts(), 0);
}

#[test]
fn missed_heartbeat_ack_reconnects_with_resume() {
    let mut config = GatewayConfig::new();
    config.heartbeat_interval_override = Some(2000);
    let mut m = GatewayManager::new(config);
    m.connect("tok".to_string()).unwrap();
    m.on_transport_opened();
    assert_eq!(
        m.on_frame(ack("s", Some(45000))),
        Command::StartHeartbeat { interval_ms: 2000 }
    );
    assert_eq!(m.on_heartbeat_tick(0), Command::SendHeartbeat { sequence: None });
    let hb = InboundFrame { kind: FrameKind::HeartbeatAck, payload: String::new() };
    assert_eq!(m.on_frame(hb), Command::Idle);
    m.on_frame(dispatch("x"));
    assert_eq!(m.on_heartbeat_tick(2000), Command::SendHeartbeat { sequence: Some(1) });
    assert_eq!(m.on_heartbeat_tick(4000), Command::Reconnect { delay_ms: 1000 });
    assert_eq!(m.state(), SessionState::Reconnecting);
    assert_eq!(m.on_heartbeat_tick(6000), Command::Idle);
    m.on_reconnect_due();
    assert_eq!(
        m.on_transport_opened(),
        Command::SendResume { session_id: "s".to_string(), sequence: Some(1) }
    );
}

#[test]
fn full_queue_reports_dropped_event() {
    let mut config = GatewayConfig::new();
    config.event_queue_capacity = Some(1);
    let mut m = live_manager(config, "tok");
    assert_eq!(m.on_frame(dispatch("1")), Command::Idle);
    assert_eq!(m.on_frame(dispatch("2")), Command::QueueFull);
    assert_eq!(m.sequence(), Some(2));
    assert_eq!(m.next_event(), Ok(Some("1".to_string())));
    assert_eq!(m.next_event(), Ok(None));
}
