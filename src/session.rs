use vstd::prelude::*;

verus! {

/// Lifecycle of the connection. Exactly one value holds at a time.
#[derive(PartialEq, Eq, Structural, Clone, Copy, Debug)]
pub enum SessionState {
    Idle,
    Connecting,
    Handshaking,
    Identified,
    Live,
    Reconnecting,
    Closed,
}

/// What an inbound frame announces.
#[derive(Debug)]
pub enum FrameKind {
    /// The service accepted the identify or resume handshake.
    HandshakeAck { session_id: String, heartbeat_interval_ms: Option<u64> },
    /// An event for the consumer; the frame's payload is the event.
    Dispatch,
    /// The service acknowledged the latest heartbeat.
    HeartbeatAck,
    /// The service invalidated the session; it says whether it can be resumed.
    InvalidSession { resumable: bool },
    /// A frame that could not be parsed; it is dropped.
    Malformed,
}

/// One message received from the transport.
#[derive(Debug)]
pub struct InboundFrame {
    pub kind: FrameKind,
    pub payload: String,
}

/// A frame as the session sees it.
pub ghost enum FrameModel {
    HandshakeAck { session_id: Seq<char> },
    Dispatch,
    HeartbeatAck,
    InvalidSession { resumable: bool },
    Malformed,
}

impl View for InboundFrame {
    type V = FrameModel;

    open spec fn view(&self) -> FrameModel {
        match self.kind {
            FrameKind::HandshakeAck { session_id, .. } => FrameModel::HandshakeAck {
                session_id: session_id@,
            },
            FrameKind::Dispatch => FrameModel::Dispatch,
            FrameKind::HeartbeatAck => FrameModel::HeartbeatAck,
            FrameKind::InvalidSession { resumable } => FrameModel::InvalidSession { resumable },
            FrameKind::Malformed => FrameModel::Malformed,
        }
    }
}

/// The session as a value: its state, its identifier and its sequence number.
pub ghost struct SessionModel {
    pub state: SessionState,
    pub session_id: Option<Seq<char>>,
    pub sequence: Option<u64>,
}

/// What the session asks of the connection manager after a frame or a transport closure.
#[derive(Debug)]
pub enum SideEffect {
    EnqueueEvent(String),
    HeartbeatAcked,
    CompleteHandshake,
    RequestReconnect { resumable: bool },
    NoOp,
}

/// The session state, with the identifier and sequence number that a resume needs.
pub struct Session {
    pub state: SessionState,
    pub session_id: Option<String>,
    pub sequence: Option<u64>,
}

pub open spec fn opt_view(s: Option<String>) -> Option<Seq<char>> {
    match s {
        Some(v) => Some(v@),
        None => None,
    }
}

impl View for Session {
    type V = SessionModel;

    open spec fn view(&self) -> SessionModel {
        SessionModel {
            state: self.state,
            session_id: opt_view(self.session_id),
            sequence: self.sequence,
        }
    }
}

/// States in which a transport is open and frames are read.
pub open spec fn is_connected(state: SessionState) -> bool {
    state == SessionState::Handshaking || state == SessionState::Identified || state
        == SessionState::Live
}

/// The sequence number as a count: absent counts as zero.
pub open spec fn seq_value(sequence: Option<u64>) -> nat {
    match sequence {
        Some(n) => n as nat,
        None => 0,
    }
}

/// The sequence number after one more dispatch (it stays at `u64::MAX` once there).
pub open spec fn next_sequence(sequence: Option<u64>) -> u64 {
    if seq_value(sequence) < u64::MAX {
        (seq_value(sequence) + 1) as u64
    } else {
        u64::MAX
    }
}

/// The effect of one frame on the session.
pub open spec fn session_step(s: SessionModel, f: FrameModel) -> SessionModel {
    match f {
        FrameModel::HandshakeAck { session_id } => if s.state == SessionState::Handshaking {
            SessionModel {
                state: SessionState::Live,
                session_id: Some(session_id),
                sequence: s.sequence,
            }
        } else {
            s
        },
        FrameModel::Dispatch => if s.state == SessionState::Live {
            SessionModel {
                state: s.state,
                session_id: s.session_id,
                sequence: Some(next_sequence(s.sequence)),
            }
        } else {
            s
        },
        FrameModel::InvalidSession { resumable } => if !is_connected(s.state) {
            s
        } else if resumable {
            SessionModel {
                state: SessionState::Reconnecting,
                session_id: s.session_id,
                sequence: s.sequence,
            }
        } else {
            SessionModel { state: SessionState::Reconnecting, session_id: None, sequence: None }
        },
        FrameModel::HeartbeatAck => s,
        FrameModel::Malformed => s,
    }
}

/// The session after a run of frames.
pub open spec fn session_run(s: SessionModel, frames: Seq<FrameModel>) -> SessionModel
    decreases frames.len(),
{
    if frames.len() == 0 {
        s
    } else {
        session_step(session_run(s, frames.drop_last()), frames.last())
    }
}

/// Whether `f` clears the session when it arrives in state `s`.
pub open spec fn resets(s: SessionModel, f: FrameModel) -> bool {
    is_connected(s.state) && f == (FrameModel::InvalidSession { resumable: false })
}

/// The number of dispatch frames of a run that arrived while live, counting from the last
/// frame that cleared the session (or from the sequence number at the start, if none did).
pub open spec fn dispatches_since_reset(s: SessionModel, frames: Seq<FrameModel>) -> nat
    decreases frames.len(),
{
    if frames.len() == 0 {
        seq_value(s.sequence)
    } else {
        let prev = session_run(s, frames.drop_last());
        let f = frames.last();
        if resets(prev, f) {
            0
        } else if f == FrameModel::Dispatch && prev.state == SessionState::Live {
            dispatches_since_reset(s, frames.drop_last()) + 1
        } else {
            dispatches_since_reset(s, frames.drop_last())
        }
    }
}

/// The sequence number counts the dispatch frames processed while live since the last
/// reset (until it would pass `u64::MAX`, where it stays).
pub proof fn lemma_sequence_counts_dispatches(s: SessionModel, frames: Seq<FrameModel>)
    ensures
        seq_value(session_run(s, frames).sequence) == if dispatches_since_reset(s, frames)
            <= u64::MAX {
            dispatches_since_reset(s, frames)
        } else {
            u64::MAX as nat
        },
    decreases frames.len(),
{
    if frames.len() > 0 {
        lemma_sequence_counts_dispatches(s, frames.drop_last());
    }
}

/// Only a frame that clears the session lowers its sequence number.
pub proof fn lemma_sequence_never_decreases(s: SessionModel, frames: Seq<FrameModel>)
    requires
        forall|i: int|
            0 <= i < frames.len() ==> !resets(
                #[trigger] session_run(s, frames.take(i)),
                frames[i],
            ),
    ensures
        seq_value(s.sequence) <= seq_value(session_run(s, frames).sequence),
    decreases frames.len(),
{
    if frames.len() > 0 {
        let init = frames.drop_last();
        assert forall|i: int| 0 <= i < init.len() implies !resets(
            #[trigger] session_run(s, init.take(i)),
            init[i],
        ) by {
            assert(init.take(i) =~= frames.take(i));
            assert(!resets(session_run(s, frames.take(i)), frames[i]));
        }
        lemma_sequence_never_decreases(s, init);
        let k = frames.len() - 1;
        assert(frames.take(k) =~= init);
        assert(!resets(session_run(s, frames.take(k)), frames[k]));
    }
}

impl Session {
    /// A session with no identifier or sequence number, in state `Idle`.
    pub fn new() -> (r: Session)
        ensures
            r@ == (SessionModel { state: SessionState::Idle, session_id: None, sequence: None }),
    {
        Session { state: SessionState::Idle, session_id: None, sequence: None }
    }

    /// Applies one inbound frame: a handshake acknowledgement makes a handshaking session
    /// live and records its identifier; a dispatch while live advances the sequence number
    /// and hands the payload on; an invalidation sends a connected session to
    /// `Reconnecting`, clearing it unless the service allows a resume.
    pub fn submit_frame(&mut self, frame: InboundFrame) -> (r: SideEffect)
        ensures
            final(self)@ == session_step(old(self)@, frame@),
            match frame@ {
                FrameModel::HandshakeAck { .. } => if old(self).state == SessionState::Handshaking {
                    r is CompleteHandshake
                } else {
                    r is NoOp
                },
                FrameModel::Dispatch => if old(self).state == SessionState::Live {
                    r == SideEffect::EnqueueEvent(frame.payload)
                } else {
                    r is NoOp
                },
                FrameModel::HeartbeatAck => if is_connected(old(self).state) {
                    r is HeartbeatAcked
                } else {
                    r is NoOp
                },
                FrameModel::InvalidSession { resumable } => if is_connected(old(self).state) {
                    r == (SideEffect::RequestReconnect { resumable })
                } else {
                    r is NoOp
                },
                FrameModel::Malformed => r is NoOp,
            },
    {
        let connected = match self.state {
            SessionState::Handshaking | SessionState::Identified | SessionState::Live => true,
            _ => false,
        };
        match frame.kind {
            FrameKind::HandshakeAck { session_id, .. } => {
                if self.state == SessionState::Handshaking {
                    self.state = SessionState::Identified;
                    self.session_id = Some(session_id);
                    self.state = SessionState::Live;
                    SideEffect::CompleteHandshake
                } else {
                    SideEffect::NoOp
                }
            },
            FrameKind::Dispatch => {
                if self.state == SessionState::Live {
                    let n: u64 = match self.sequence {
                        Some(n) => n,
                        None => 0,
                    };
                    self.sequence = Some(if n < u64::MAX { n + 1 } else { u64::MAX });
                    SideEffect::EnqueueEvent(frame.payload)
                } else {
                    SideEffect::NoOp
                }
            },
            FrameKind::HeartbeatAck => {
                if connected {
                    SideEffect::HeartbeatAcked
                } else {
                    SideEffect::NoOp
                }
            },
            FrameKind::InvalidSession { resumable } => {
                if connected {
                    self.state = SessionState::Reconnecting;
                    if !resumable {
                        self.clear();
                    }
                    SideEffect::RequestReconnect { resumable }
                } else {
                    SideEffect::NoOp
                }
            },
            FrameKind::Malformed => SideEffect::NoOp,
        }
    }

    /// The transport closed without an invalidation first: a connected session goes to
    /// `Reconnecting`, asking for a resume exactly when it has an identifier.
    pub fn on_transport_closed(&mut self) -> (r: SideEffect)
        ensures
            is_connected(old(self).state) ==> final(self)@ == (SessionModel {
                state: SessionState::Reconnecting,
                ..old(self)@
            }) && r == (SideEffect::RequestReconnect {
                resumable: old(self).session_id.is_some(),
            }),
            !is_connected(old(self).state) ==> final(self)@ == old(self)@ && r is NoOp,
    {
        match self.state {
            SessionState::Handshaking | SessionState::Identified | SessionState::Live => {
                self.state = SessionState::Reconnecting;
                SideEffect::RequestReconnect { resumable: self.session_id.is_some() }
            },
            _ => SideEffect::NoOp,
        }
    }

    /// Forgets the identifier and the sequence number; the state is kept.
    pub fn clear(&mut self)
        ensures
            final(self)@ == (SessionModel { state: old(self).state, session_id: None, sequence: None }),
    {
        self.session_id = None;
        self.sequence = None;
    }
}

} // verus!
