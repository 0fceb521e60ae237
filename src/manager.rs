use vstd::prelude::*;

use crate::backoff::{
    BackoffState, ReconnectAction, ReconnectPolicy, DEFAULT_BASE_DELAY_MS, DEFAULT_MAX_ATTEMPTS,
    DEFAULT_MAX_DELAY_MS,
};
use crate::heartbeat::{heartbeat_interval, spec_heartbeat_interval, HeartbeatTick, HeartbeatTimer};
use crate::queue::{accepts, CloseCause, EventQueue, Poll};
use crate::session::{
    is_connected, session_step, FrameKind, FrameModel, InboundFrame, Session,
    SessionModel, SessionState, SideEffect,
};

verus! {

/// Settings of a connection manager.
#[derive(Clone, Copy, Debug)]
pub struct GatewayConfig {
    /// Heartbeat interval to use instead of the one the service announces.
    pub heartbeat_interval_override: Option<u64>,
    pub max_reconnect_attempts: u32,
    pub base_backoff_delay_ms: u64,
    pub max_backoff_delay_ms: u64,
    /// Bound on buffered events; `None` for no bound.
    pub event_queue_capacity: Option<usize>,
}

impl GatewayConfig {
    /// Five reconnect attempts, delays from one second doubling up to thirty, the
    /// service's heartbeat interval and an unbounded queue.
    pub fn new() -> (r: GatewayConfig)
        ensures
            r.heartbeat_interval_override.is_none(),
            r.max_reconnect_attempts == DEFAULT_MAX_ATTEMPTS,
            r.base_backoff_delay_ms == DEFAULT_BASE_DELAY_MS,
            r.max_backoff_delay_ms == DEFAULT_MAX_DELAY_MS,
            r.event_queue_capacity.is_none(),
    {
        GatewayConfig {
            heartbeat_interval_override: None,
            max_reconnect_attempts: DEFAULT_MAX_ATTEMPTS,
            base_backoff_delay_ms: DEFAULT_BASE_DELAY_MS,
            max_backoff_delay_ms: DEFAULT_MAX_DELAY_MS,
            event_queue_capacity: None,
        }
    }
}

/// Why `connect` failed.
#[derive(PartialEq, Eq, Structural, Clone, Copy, Debug)]
pub enum ConnectError {
    /// The transport could not be opened.
    Unreachable,
    /// The service closed or invalidated the session before acknowledging the handshake.
    HandshakeFailed,
    /// The manager was closed.
    Closed,
}

/// Why `next_event` has nothing more to give.
#[derive(PartialEq, Eq, Structural, Clone, Copy, Debug)]
pub enum StreamError {
    Closed(CloseCause),
}

/// What the driver must do next on the manager's behalf.
#[derive(PartialEq, Eq, Debug)]
pub enum Command {
    /// Nothing.
    Idle,
    /// Open a new transport, replacing any previous one, then report `on_transport_opened`
    /// or `on_transport_failed`.
    OpenTransport,
    /// Send the identify handshake with the credential.
    SendIdentify { token: String },
    /// Send the resume handshake for a known session.
    SendResume { session_id: String, sequence: Option<u64> },
    /// The pending `connect` succeeded: tick the heartbeat every `interval_ms`.
    StartHeartbeat { interval_ms: u64 },
    /// Send a heartbeat carrying the latest sequence number.
    SendHeartbeat { sequence: Option<u64> },
    /// Close the transport and call `on_reconnect_due` after `delay_ms` (jitter aside).
    Reconnect { delay_ms: u64 },
    /// The pending `connect` failed; close the transport if one is open.
    ConnectFailed(ConnectError),
    /// A dispatched event was dropped because the queue is full.
    QueueFull,
    /// Close the transport, cancel every timer and release waiting consumers.
    Shutdown(CloseCause),
}

/// Owns the session, the heartbeat, the reconnect policy and the event queue, and decides
/// for each thing that happens to the connection what the driver must do next.
pub struct GatewayManager {
    session: Session,
    heartbeat: HeartbeatTimer,
    policy: ReconnectPolicy,
    backoff: BackoffState,
    queue: EventQueue,
    credential: String,
    heartbeat_override: Option<u64>,
    established: bool,
}

/// The announced heartbeat interval of a handshake acknowledgement.
pub open spec fn announced_interval(frame: InboundFrame) -> Option<u64> {
    match frame.kind {
        FrameKind::HandshakeAck { heartbeat_interval_ms, .. } => heartbeat_interval_ms,
        _ => None,
    }
}

impl GatewayManager {
    pub closed spec fn spec_session(&self) -> SessionModel {
        self.session@
    }

    pub open spec fn spec_state(&self) -> SessionState {
        self.spec_session().state
    }

    pub closed spec fn spec_events(&self) -> Seq<String> {
        self.queue@
    }

    pub closed spec fn spec_capacity(&self) -> Option<usize> {
        self.queue.spec_capacity()
    }

    pub closed spec fn spec_close_cause(&self) -> Option<CloseCause> {
        self.queue.spec_closed()
    }

    pub closed spec fn spec_attempt(&self) -> u32 {
        self.backoff.attempt
    }

    pub closed spec fn spec_policy(&self) -> ReconnectPolicy {
        self.policy
    }

    pub closed spec fn spec_credential(&self) -> Seq<char> {
        self.credential@
    }

    pub closed spec fn spec_heartbeat_override(&self) -> Option<u64> {
        self.heartbeat_override
    }

    /// Whether the session has gone live since the latest `connect`.
    pub closed spec fn spec_established(&self) -> bool {
        self.established
    }

    pub closed spec fn spec_heartbeat_running(&self) -> bool {
        self.heartbeat.running
    }

    pub closed spec fn spec_ack_pending(&self) -> bool {
        self.heartbeat.ack_pending
    }

    /// The stream is closed exactly when the manager is; a live session went through a
    /// handshake since the latest `connect`; the heartbeat runs only while live.
    pub closed spec fn wf(&self) -> bool {
        &&& (self.session.state == SessionState::Closed) == self.queue.spec_closed().is_some()
        &&& self.session.state == SessionState::Live ==> self.established
        &&& self.heartbeat.running ==> self.session.state == SessionState::Live
    }

    /// Nothing about the manager changed.
    pub open spec fn unchanged(pre: &GatewayManager, post: &GatewayManager) -> bool {
        &&& post.spec_session() == pre.spec_session()
        &&& post.spec_events() == pre.spec_events()
        &&& post.spec_close_cause() == pre.spec_close_cause()
        &&& post.spec_attempt() == pre.spec_attempt()
        &&& post.spec_established() == pre.spec_established()
        &&& post.spec_heartbeat_running() == pre.spec_heartbeat_running()
        &&& post.spec_ack_pending() == pre.spec_ack_pending()
    }

    /// The parts that only the caller sets.
    pub open spec fn same_settings(pre: &GatewayManager, post: &GatewayManager) -> bool {
        &&& post.spec_policy() == pre.spec_policy()
        &&& post.spec_capacity() == pre.spec_capacity()
        &&& post.spec_heartbeat_override() == pre.spec_heartbeat_override()
        &&& post.spec_credential() == pre.spec_credential()
    }

    /// What losing an established connection leads to, the session being `s` once the
    /// cause was applied. Below the attempt limit: `Reconnecting` after the policy's delay,
    /// keeping the identifier and sequence number for a resume when `resumable` and the
    /// session has an identifier, clearing them otherwise. At the limit: closed, with the
    /// stream ended by exhaustion.
    pub open spec fn lost_connection(
        pre: &GatewayManager,
        post: &GatewayManager,
        s: SessionModel,
        resumable: bool,
        r: Command,
    ) -> bool {
        &&& post.spec_events() == pre.spec_events()
        &&& !post.spec_heartbeat_running()
        &&& post.spec_established() == pre.spec_established()
        &&& if pre.spec_attempt() >= pre.spec_policy().max_attempts {
            &&& post.spec_state() == SessionState::Closed
            &&& post.spec_close_cause() == Some(CloseCause::ReconnectExhausted)
            &&& post.spec_attempt() == pre.spec_attempt()
            &&& r == Command::Shutdown(CloseCause::ReconnectExhausted)
        } else {
            let resume = resumable && s.session_id.is_some();
            &&& post.spec_close_cause() == pre.spec_close_cause()
            &&& post.spec_attempt() == pre.spec_attempt() + 1
            &&& post.spec_session() == if resume {
                SessionModel { state: SessionState::Reconnecting, ..s }
            } else {
                SessionModel { state: SessionState::Reconnecting, session_id: None, sequence: None }
            }
            &&& exists|d: u64|
                d == pre.spec_policy().delay_for(pre.spec_attempt() as nat) && r
                    == (Command::Reconnect { delay_ms: d })
        }
    }

    /// What a failed first handshake leads to: back to `Idle` with the session cleared,
    /// and the pending `connect` fails.
    pub open spec fn failed_connect(
        pre: &GatewayManager,
        post: &GatewayManager,
        e: ConnectError,
        r: Command,
    ) -> bool {
        &&& post.spec_session() == (SessionModel {
            state: SessionState::Idle,
            session_id: None,
            sequence: None,
        })
        &&& post.spec_events() == pre.spec_events()
        &&& post.spec_close_cause() == pre.spec_close_cause()
        &&& post.spec_attempt() == pre.spec_attempt()
        &&& !post.spec_established()
        &&& !post.spec_heartbeat_running()
        &&& r == Command::ConnectFailed(e)
    }

    /// An idle manager with the given settings.
    pub fn new(config: GatewayConfig) -> (r: GatewayManager)
        ensures
            r.wf(),
            r.spec_session() == (SessionModel {
                state: SessionState::Idle,
                session_id: None,
                sequence: None,
            }),
            r.spec_events() == Seq::<String>::empty(),
            r.spec_capacity() == config.event_queue_capacity,
            r.spec_close_cause().is_none(),
            r.spec_attempt() == 0,
            r.spec_policy() == (ReconnectPolicy {
                base_delay_ms: config.base_backoff_delay_ms,
                max_delay_ms: config.max_backoff_delay_ms,
                max_attempts: config.max_reconnect_attempts,
            }),
            r.spec_heartbeat_override() == config.heartbeat_interval_override,
            !r.spec_established(),
            !r.spec_heartbeat_running(),
    {
        GatewayManager {
            session: Session::new(),
            heartbeat: HeartbeatTimer::new(),
            policy: ReconnectPolicy {
                base_delay_ms: config.base_backoff_delay_ms,
                max_delay_ms: config.max_backoff_delay_ms,
                max_attempts: config.max_reconnect_attempts,
            },
            backoff: BackoffState::new(),
            queue: EventQueue::new(config.event_queue_capacity),
            credential: String::new(),
            heartbeat_override: config.heartbeat_interval_override,
            established: false,
        }
    }

    pub fn state(&self) -> (r: SessionState)
        ensures
            r == self.spec_state(),
    {
        self.session.state
    }

    pub fn is_live(&self) -> (r: bool)
        ensures
            r == (self.spec_state() == SessionState::Live),
    {
        self.session.state == SessionState::Live
    }

    pub fn sequence(&self) -> (r: Option<u64>)
        ensures
            r == self.spec_session().sequence,
    {
        self.session.sequence
    }

    pub fn has_session_id(&self) -> (r: bool)
        ensures
            r == self.spec_session().session_id.is_some(),
    {
        self.session.session_id.is_some()
    }

    pub fn reconnect_attempts(&self) -> (r: u32)
        ensures
            r == self.spec_attempt(),
    {
        self.backoff.attempt
    }

    pub fn close_cause(&self) -> (r: Option<CloseCause>)
        ensures
            r == self.spec_close_cause(),
    {
        self.queue.close_cause()
    }

    /// Starts connecting with `token`. From `Idle` the manager records the credential, moves
    /// to `Connecting` and asks for a transport; while a connection is live or under way
    /// it does nothing; a closed manager refuses.
    pub fn connect(&mut self, token: String) -> (r: Result<Command, ConnectError>)
        requires
            old(self).wf(),
        ensures
            final(self).wf(),
            Self::same_settings(old(self), final(self)) || old(self).spec_state()
                == SessionState::Idle,
            old(self).spec_state() == SessionState::Closed ==> r == Err::<Command, ConnectError>(
                ConnectError::Closed,
            ) && Self::unchanged(old(self), final(self)),
            old(self).spec_state() == SessionState::Idle ==> {
                &&& r == Ok::<Command, ConnectError>(Command::OpenTransport)
                &&& final(self).spec_session() == (SessionModel {
                    state: SessionState::Connecting,
                    ..old(self).spec_session()
                })
                &&& final(self).spec_credential() == token@
                &&& final(self).spec_policy() == old(self).spec_policy()
                &&& final(self).spec_capacity() == old(self).spec_capacity()
                &&& final(self).spec_heartbeat_override() == old(self).spec_heartbeat_override()
                &&& final(self).spec_events() == old(self).spec_events()
                &&& final(self).spec_close_cause() == old(self).spec_close_cause()
                &&& final(self).spec_attempt() == old(self).spec_attempt()
                &&& !final(self).spec_established()
                &&& final(self).spec_heartbeat_running() == old(self).spec_heartbeat_running()
                &&& final(self).spec_ack_pending() == old(self).spec_ack_pending()
            },
            old(self).spec_state() != SessionState::Idle && old(self).spec_state()
                != SessionState::Closed ==> r == Ok::<Command, ConnectError>(Command::Idle)
                && Self::unchanged(old(self), final(self)),
    {
        match self.session.state {
            SessionState::Closed => Err(ConnectError::Closed),
            SessionState::Idle => {
                self.credential = token;
                self.established = false;
                self.session.state = SessionState::Connecting;
                Ok(Command::OpenTransport)
            },
            _ => Ok(Command::Idle),
        }
    }

    /// The transport asked for is open: send the handshake, a resume when the session has
    /// an identifier, else an identify with the credential.
    pub fn on_transport_opened(&mut self) -> (r: Command)
        requires
            old(self).wf(),
        ensures
            final(self).wf(),
            Self::same_settings(old(self), final(self)),
            old(self).spec_state() != SessionState::Connecting ==> r == Command::Idle
                && Self::unchanged(old(self), final(self)),
            old(self).spec_state() == SessionState::Connecting ==> {
                &&& final(self).spec_session() == (SessionModel {
                    state: SessionState::Handshaking,
                    ..old(self).spec_session()
                })
                &&& final(self).spec_events() == old(self).spec_events()
                &&& final(self).spec_close_cause() == old(self).spec_close_cause()
                &&& final(self).spec_attempt() == old(self).spec_attempt()
                &&& final(self).spec_established() == old(self).spec_established()
                &&& final(self).spec_heartbeat_running() == old(self).spec_heartbeat_running()
                &&& final(self).spec_ack_pending() == old(self).spec_ack_pending()
                &&& match old(self).spec_session().session_id {
                    Some(id) => match r {
                        Command::SendResume { session_id, sequence } => session_id@ == id
                            && sequence == old(self).spec_session().sequence,
                        _ => false,
                    },
                    None => match r {
                        Command::SendIdentify { token } => token@ == old(self).spec_credential(),
                        _ => false,
                    },
                }
            },
    {
        if self.session.state != SessionState::Connecting {
            return Command::Idle;
        }
        self.session.state = SessionState::Handshaking;
        match &self.session.session_id {
            Some(id) => Command::SendResume { session_id: id.clone(), sequence: self.session.sequence },
            None => Command::SendIdentify { token: self.credential.clone() },
        }
    }

    /// The connection was lost after the session had been live: consult the policy.
    fn lose_connection(&mut self, resumable: bool) -> (r: Command)
        requires
            old(self).queue.spec_closed().is_none(),
            old(self).spec_state() == SessionState::Reconnecting,
        ensures
            final(self).wf(),
            Self::same_settings(old(self), final(self)),
            Self::lost_connection(old(self), final(self), old(self).spec_session(), resumable, r),
    {
        self.heartbeat.stop();
        let resume = resumable && self.session.session_id.is_some();
        match self.policy.on_disconnect(&mut self.backoff, resume) {
            ReconnectAction::GiveUp => {
                self.session.state = SessionState::Closed;
                self.queue.close(CloseCause::ReconnectExhausted);
                Command::Shutdown(CloseCause::ReconnectExhausted)
            },
            ReconnectAction::ResumeSession { delay_ms } => Command::Reconnect { delay_ms },
            ReconnectAction::FreshIdentify { delay_ms } => {
                self.session.clear();
                Command::Reconnect { delay_ms }
            },
        }
    }

    /// The first handshake did not complete.
    fn fail_connect(&mut self, e: ConnectError) -> (r: Command)
        requires
            old(self).queue.spec_closed().is_none(),
        ensures
            final(self).wf(),
            Self::same_settings(old(self), final(self)),
            Self::failed_connect(old(self), final(self), e, r),
    {
        self.heartbeat.stop();
        self.session.clear();
        self.session.state = SessionState::Idle;
        self.established = false;
        Command::ConnectFailed(e)
    }

    /// The transport asked for could not be opened. A first connection fails; a reconnect
    /// attempt counts as failed and the policy decides again.
    pub fn on_transport_failed(&mut self) -> (r: Command)
        requires
            old(self).wf(),
        ensures
            final(self).wf(),
            Self::same_settings(old(self), final(self)),
            old(self).spec_state() != SessionState::Connecting ==> r == Command::Idle
                && Self::unchanged(old(self), final(self)),
            old(self).spec_state() == SessionState::Connecting && !old(self).spec_established()
                ==> Self::failed_connect(old(self), final(self), ConnectError::Unreachable, r),
            old(self).spec_state() == SessionState::Connecting && old(self).spec_established()
                ==> Self::lost_connection(
                old(self),
                final(self),
                old(self).spec_session(),
                true,
                r,
            ),
    {
        if self.session.state != SessionState::Connecting {
            return Command::Idle;
        }
        if !self.established {
            return self.fail_connect(ConnectError::Unreachable);
        }
        self.session.state = SessionState::Reconnecting;
        self.lose_connection(true)
    }

    /// One frame from the transport. A handshake acknowledgement makes the session live,
    /// resets the reconnect attempts and starts the heartbeat; a dispatch while live
    /// enqueues its payload; a heartbeat acknowledgement clears the pending flag; an
    /// invalidation fails a first connection, or else loses the connection, resumable as
    /// the service said.
    pub fn on_frame(&mut self, frame: InboundFrame) -> (r: Command)
        requires
            old(self).wf(),
        ensures
            final(self).wf(),
            Self::same_settings(old(self), final(self)),
            ({
                let s = old(self).spec_session();
                let s2 = session_step(s, frame@);
                match frame@ {
                    FrameModel::HandshakeAck { .. } => if s.state == SessionState::Handshaking {
                        &&& final(self).spec_session() == s2
                        &&& final(self).spec_attempt() == 0
                        &&& final(self).spec_established()
                        &&& final(self).spec_heartbeat_running()
                        &&& !final(self).spec_ack_pending()
                        &&& final(self).spec_events() == old(self).spec_events()
                        &&& final(self).spec_close_cause() == old(self).spec_close_cause()
                        &&& r == (Command::StartHeartbeat {
                            interval_ms: spec_heartbeat_interval(
                                old(self).spec_heartbeat_override(),
                                announced_interval(frame),
                            ),
                        })
                    } else {
                        r == Command::Idle && Self::unchanged(old(self), final(self))
                    },
                    FrameModel::Dispatch => if s.state == SessionState::Live {
                        &&& final(self).spec_session() == s2
                        &&& final(self).spec_attempt() == old(self).spec_attempt()
                        &&& final(self).spec_established() == old(self).spec_established()
                        &&& final(self).spec_heartbeat_running()
                            == old(self).spec_heartbeat_running()
                        &&& final(self).spec_ack_pending() == old(self).spec_ack_pending()
                        &&& final(self).spec_close_cause() == old(self).spec_close_cause()
                        &&& if accepts(
                            old(self).spec_events().len(),
                            old(self).spec_capacity(),
                            false,
                        ) {
                            final(self).spec_events() == old(self).spec_events().push(
                                frame.payload,
                            ) && r == Command::Idle
                        } else {
                            final(self).spec_events() == old(self).spec_events() && r
                                == Command::QueueFull
                        }
                    } else {
                        r == Command::Idle && Self::unchanged(old(self), final(self))
                    },
                    FrameModel::HeartbeatAck => {
                        &&& r == Command::Idle
                        &&& final(self).spec_session() == s
                        &&& final(self).spec_events() == old(self).spec_events()
                        &&& final(self).spec_close_cause() == old(self).spec_close_cause()
                        &&& final(self).spec_attempt() == old(self).spec_attempt()
                        &&& final(self).spec_established() == old(self).spec_established()
                        &&& final(self).spec_heartbeat_running()
                            == old(self).spec_heartbeat_running()
                        &&& final(self).spec_ack_pending() == (old(self).spec_ack_pending()
                            && !is_connected(s.state))
                    },
                    FrameModel::InvalidSession { resumable } => if !is_connected(s.state) {
                        r == Command::Idle && Self::unchanged(old(self), final(self))
                    } else if !old(self).spec_established() {
                        Self::failed_connect(old(self), final(self), ConnectError::HandshakeFailed, r)
                    } else {
                        Self::lost_connection(old(self), final(self), s2, resumable, r)
                    },
                    FrameModel::Malformed => r == Command::Idle && Self::unchanged(
                        old(self),
                        final(self),
                    ),
                }
            }),
    {
        let announced: Option<u64> = match &frame.kind {
            FrameKind::HandshakeAck { heartbeat_interval_ms, .. } => *heartbeat_interval_ms,
            _ => None,
        };
        match self.session.submit_frame(frame) {
            SideEffect::CompleteHandshake => {
                let interval = heartbeat_interval(self.heartbeat_override, announced);
                self.backoff.reset();
                self.established = true;
                self.heartbeat.start(interval);
                Command::StartHeartbeat { interval_ms: interval }
            },
            SideEffect::EnqueueEvent(event) => {
                match self.queue.push(event) {
                    Ok(()) => Command::Idle,
                    Err(_) => Command::QueueFull,
                }
            },
            SideEffect::HeartbeatAcked => {
                self.heartbeat.on_ack();
                Command::Idle
            },
            SideEffect::RequestReconnect { resumable } => {
                if !self.established {
                    self.fail_connect(ConnectError::HandshakeFailed)
                } else {
                    self.lose_connection(resumable)
                }
            },
            SideEffect::NoOp => Command::Idle,
        }
    }

    /// The transport closed by itself. While connected this fails a first connection, or
    /// else loses the connection, resumable when the session has an identifier.
    pub fn on_transport_closed(&mut self) -> (r: Command)
        requires
            old(self).wf(),
        ensures
            final(self).wf(),
            Self::same_settings(old(self), final(self)),
            !is_connected(old(self).spec_state()) ==> r == Command::Idle && Self::unchanged(
                old(self),
                final(self),
            ),
            is_connected(old(self).spec_state()) && !old(self).spec_established()
                ==> Self::failed_connect(old(self), final(self), ConnectError::HandshakeFailed, r),
            is_connected(old(self).spec_state()) && old(self).spec_established()
                ==> Self::lost_connection(
                old(self),
                final(self),
                old(self).spec_session(),
                true,
                r,
            ),
    {
        match self.session.on_transport_closed() {
            SideEffect::RequestReconnect { resumable } => {
                if !self.established {
                    self.fail_connect(ConnectError::HandshakeFailed)
                } else {
                    self.lose_connection(resumable)
                }
            },
            _ => Command::Idle,
        }
    }

    /// A heartbeat tick at time `now`. A heartbeat is sent, carrying the sequence number,
    /// unless the previous one went unacknowledged: then the connection is lost and a
    /// resume is attempted.
    pub fn on_heartbeat_tick(&mut self, now: u64) -> (r: Command)
        requires
            old(self).wf(),
        ensures
            final(self).wf(),
            Self::same_settings(old(self), final(self)),
            old(self).spec_state() != SessionState::Live || !old(self).spec_heartbeat_running()
                ==> r == Command::Idle && Self::unchanged(old(self), final(self)),
            old(self).spec_state() == SessionState::Live && old(self).spec_heartbeat_running()
                && !old(self).spec_ack_pending() ==> {
                &&& r == (Command::SendHeartbeat { sequence: old(self).spec_session().sequence })
                &&& final(self).spec_ack_pending()
                &&& final(self).spec_heartbeat_running()
                &&& final(self).spec_session() == old(self).spec_session()
                &&& final(self).spec_events() == old(self).spec_events()
                &&& final(self).spec_close_cause() == old(self).spec_close_cause()
                &&& final(self).spec_attempt() == old(self).spec_attempt()
                &&& final(self).spec_established() == old(self).spec_established()
            },
            old(self).spec_state() == SessionState::Live && old(self).spec_heartbeat_running()
                && old(self).spec_ack_pending() ==> Self::lost_connection(
                old(self),
                final(self),
                SessionModel { state: SessionState::Reconnecting, ..old(self).spec_session() },
                true,
                r,
            ),
    {
        if self.session.state != SessionState::Live || !self.heartbeat.running {
            return Command::Idle;
        }
        match self.heartbeat.tick(now) {
            HeartbeatTick::Send => Command::SendHeartbeat { sequence: self.session.sequence },
            _ => {
                self.session.state = SessionState::Reconnecting;
                self.lose_connection(true)
            },
        }
    }

    /// The reconnect delay has passed: ask for a new transport.
    pub fn on_reconnect_due(&mut self) -> (r: Command)
        requires
            old(self).wf(),
        ensures
            final(self).wf(),
            Self::same_settings(old(self), final(self)),
            old(self).spec_state() != SessionState::Reconnecting ==> r == Command::Idle
                && Self::unchanged(old(self), final(self)),
            old(self).spec_state() == SessionState::Reconnecting ==> r == Command::OpenTransport
                && final(self).spec_session() == (SessionModel {
                state: SessionState::Connecting,
                ..old(self).spec_session()
            }) && final(self).spec_events() == old(self).spec_events()
                && final(self).spec_close_cause() == old(self).spec_close_cause()
                && final(self).spec_attempt() == old(self).spec_attempt()
                && final(self).spec_established() == old(self).spec_established()
                && final(self).spec_heartbeat_running() == old(self).spec_heartbeat_running()
                && final(self).spec_ack_pending() == old(self).spec_ack_pending(),
    {
        if self.session.state != SessionState::Reconnecting {
            return Command::Idle;
        }
        self.session.state = SessionState::Connecting;
        Command::OpenTransport
    }

    /// Shuts the manager down from any state. The first call closes the stream and asks
    /// the driver to release the transport, the timers and the waiting consumers; later
    /// calls do nothing.
    pub fn close(&mut self) -> (r: Command)
        requires
            old(self).wf(),
        ensures
            final(self).wf(),
            Self::same_settings(old(self), final(self)),
            final(self).spec_state() == SessionState::Closed,
            final(self).spec_events() == old(self).spec_events(),
            !final(self).spec_heartbeat_running(),
            old(self).spec_state() == SessionState::Closed ==> r == Command::Idle
                && Self::unchanged(old(self), final(self)),
            old(self).spec_state() != SessionState::Closed ==> r == Command::Shutdown(
                CloseCause::Requested,
            ) && final(self).spec_close_cause() == Some(CloseCause::Requested),
    {
        if self.session.state == SessionState::Closed {
            return Command::Idle;
        }
        self.session.state = SessionState::Closed;
        self.heartbeat.stop();
        self.queue.close(CloseCause::Requested);
        Command::Shutdown(CloseCause::Requested)
    }

    /// The next event, oldest first. `Ok(None)` means none is buffered yet and the caller
    /// waits; once the manager is closed and nothing is buffered, the stream has ended.
    pub fn next_event(&mut self) -> (r: Result<Option<String>, StreamError>)
        requires
            old(self).wf(),
        ensures
            final(self).wf(),
            Self::same_settings(old(self), final(self)),
            final(self).spec_session() == old(self).spec_session(),
            final(self).spec_close_cause() == old(self).spec_close_cause(),
            final(self).spec_attempt() == old(self).spec_attempt(),
            old(self).spec_events().len() > 0 ==> r == Ok::<Option<String>, StreamError>(
                Some(old(self).spec_events()[0]),
            ) && final(self).spec_events() == old(self).spec_events().drop_first(),
            old(self).spec_events().len() == 0 ==> final(self).spec_events()
                == old(self).spec_events() && match old(self).spec_close_cause() {
                Some(c) => r == Err::<Option<String>, StreamError>(StreamError::Closed(c))
                    && old(self).spec_state() == SessionState::Closed,
                None => r == Ok::<Option<String>, StreamError>(None) && old(self).spec_state()
                    != SessionState::Closed,
            },
    {
        match self.queue.pop() {
            Poll::Ready(e) => Ok(Some(e)),
            Poll::Pending => Ok(None),
            Poll::Closed(c) => Err(StreamError::Closed(c)),
        }
    }
}

} // verus!
