use vstd::prelude::*;

verus! {

/// Heartbeat interval used when neither the configuration nor the service gives one,
/// in milliseconds.
pub const DEFAULT_HEARTBEAT_INTERVAL_MS: u64 = 41250;

/// The interval in force: a positive override first, then a positive interval announced
/// by the service during the handshake, then the default.
pub open spec fn spec_heartbeat_interval(overridden: Option<u64>, announced: Option<u64>) -> u64 {
    match overridden {
        Some(i) if i > 0 => i,
        _ => match announced {
            Some(i) if i > 0 => i,
            _ => DEFAULT_HEARTBEAT_INTERVAL_MS,
        },
    }
}

pub fn heartbeat_interval(overridden: Option<u64>, announced: Option<u64>) -> (r: u64)
    ensures
        r == spec_heartbeat_interval(overridden, announced),
        r > 0,
{
    match overridden {
        Some(i) if i > 0 => i,
        _ => match announced {
            Some(i) if i > 0 => i,
            _ => DEFAULT_HEARTBEAT_INTERVAL_MS,
        },
    }
}

/// The delay before the first heartbeat, spread over `[0, interval)` by `random`.
pub fn first_heartbeat_delay(interval_ms: u64, random: u64) -> (r: u64)
    requires
        interval_ms > 0,
    ensures
        r == random % interval_ms,
        r < interval_ms,
{
    random % interval_ms
}

/// What a timer tick calls for.
#[derive(PartialEq, Eq, Structural, Clone, Copy, Debug)]
pub enum HeartbeatTick {
    /// Send a heartbeat now.
    Send,
    /// The previous heartbeat was never acknowledged: the connection is presumed dead and
    /// the timer has stopped.
    LivenessFailure,
    /// The timer is not running.
    Stopped,
}

/// Heartbeat bookkeeping: the interval, when the latest heartbeat went out, and whether
/// its acknowledgement is still awaited.
pub struct HeartbeatTimer {
    pub interval_ms: u64,
    pub last_sent_at: Option<u64>,
    pub ack_pending: bool,
    pub running: bool,
}

impl HeartbeatTimer {
    /// A stopped timer.
    pub fn new() -> (r: HeartbeatTimer)
        ensures
            r.interval_ms == DEFAULT_HEARTBEAT_INTERVAL_MS,
            r.last_sent_at.is_none(),
            !r.ack_pending,
            !r.running,
    {
        HeartbeatTimer {
            interval_ms: DEFAULT_HEARTBEAT_INTERVAL_MS,
            last_sent_at: None,
            ack_pending: false,
            running: false,
        }
    }

    /// Starts ticking every `interval_ms`, with nothing sent yet.
    pub fn start(&mut self, interval_ms: u64)
        ensures
            final(self).interval_ms == interval_ms,
            final(self).last_sent_at.is_none(),
            !final(self).ack_pending,
            final(self).running,
    {
        self.interval_ms = interval_ms;
        self.last_sent_at = None;
        self.ack_pending = false;
        self.running = true;
    }

    pub fn stop(&mut self)
        ensures
            !final(self).running,
            final(self).interval_ms == old(self).interval_ms,
            final(self).last_sent_at == old(self).last_sent_at,
            final(self).ack_pending == old(self).ack_pending,
    {
        self.running = false;
    }

    /// One tick at time `now`. If the previous heartbeat is still unacknowledged the
    /// connection has failed and the timer stops; otherwise a heartbeat is due, and it is
    /// recorded as sent at `now` and awaiting its acknowledgement.
    pub fn tick(&mut self, now: u64) -> (r: HeartbeatTick)
        ensures
            final(self).interval_ms == old(self).interval_ms,
            !old(self).running ==> r == HeartbeatTick::Stopped && *final(self) == *old(self),
            old(self).running && old(self).ack_pending ==> r == HeartbeatTick::LivenessFailure
                && !final(self).running && final(self).ack_pending
                && final(self).last_sent_at == old(self).last_sent_at,
            old(self).running && !old(self).ack_pending ==> r == HeartbeatTick::Send
                && final(self).running && final(self).ack_pending
                && final(self).last_sent_at == Some(now),
    {
        if !self.running {
            HeartbeatTick::Stopped
        } else if self.ack_pending {
            self.running = false;
            HeartbeatTick::LivenessFailure
        } else {
            self.ack_pending = true;
            self.last_sent_at = Some(now);
            HeartbeatTick::Send
        }
    }

    /// The service acknowledged the latest heartbeat.
    pub fn on_ack(&mut self)
        ensures
            !final(self).ack_pending,
            final(self).running == old(self).running,
            final(self).interval_ms == old(self).interval_ms,
            final(self).last_sent_at == old(self).last_sent_at,
    {
        self.ack_pending = false;
    }
}

} // verus!
