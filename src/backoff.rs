use vstd::prelude::*;

verus! {

/// Default number of reconnect attempts before the manager gives up.
pub const DEFAULT_MAX_ATTEMPTS: u32 = 5;

/// Default delay before the first reconnect attempt, in milliseconds.
pub const DEFAULT_BASE_DELAY_MS: u64 = 1000;

/// Default ceiling on the reconnect delay, in milliseconds.
pub const DEFAULT_MAX_DELAY_MS: u64 = 30000;

/// `base * 2^attempt`, without any ceiling.
pub open spec fn exp_delay(base: nat, attempt: nat) -> nat
    decreases attempt,
{
    if attempt == 0 {
        base
    } else {
        2 * exp_delay(base, (attempt - 1) as nat)
    }
}

/// `min(base * 2^attempt, max)`: the delay before reconnect attempt number `attempt`
/// (counted from zero), jitter aside.
pub open spec fn capped_delay(base: nat, max: nat, attempt: nat) -> nat {
    if exp_delay(base, attempt) <= max {
        exp_delay(base, attempt)
    } else {
        max
    }
}

pub proof fn lemma_exp_delay_monotone(base: nat, a: nat, b: nat)
    requires
        a <= b,
    ensures
        exp_delay(base, a) <= exp_delay(base, b),
    decreases b,
{
    if a < b {
        lemma_exp_delay_monotone(base, a, (b - 1) as nat);
    }
}

/// The delay never exceeds the ceiling and never shrinks from one attempt to the next.
pub proof fn lemma_capped_delay_growth(base: nat, max: nat, a: nat, b: nat)
    requires
        a <= b,
    ensures
        capped_delay(base, max, a) <= capped_delay(base, max, b),
        capped_delay(base, max, b) <= max,
{
    lemma_exp_delay_monotone(base, a, b);
}

/// The unjittered delay before reconnect attempt `attempt`: `min(base * 2^attempt, max)`.
pub fn backoff_delay(base: u64, max: u64, attempt: u32) -> (r: u64)
    ensures
        r as nat == capped_delay(base as nat, max as nat, attempt as nat),
{
    let mut d: u64 = if base <= max {
        base
    } else {
        max
    };
    let mut i: u32 = 0;
    while i < attempt && d < max
        invariant
            i <= attempt,
            d as nat == capped_delay(base as nat, max as nat, i as nat),
        decreases attempt - i,
    {
        proof {
            assert(exp_delay(base as nat, (i + 1) as nat) == 2 * exp_delay(base as nat, i as nat));
        }
        if d >= max - d {
            d = max;
        } else {
            d = 2 * d;
        }
        i = i + 1;
    }
    proof {
        if i < attempt {
            lemma_exp_delay_monotone(base as nat, i as nat, attempt as nat);
        }
    }
    d
}

/// The delay spread by up to a fifth either way: `delay - delay/5 + random % (2*(delay/5) + 1)`.
pub fn jittered_delay(delay: u64, random: u64) -> (r: u64)
    requires
        delay + delay / 5 <= u64::MAX,
    ensures
        r as int == delay - delay / 5 + (random % (2 * (delay / 5) + 1) as u64),
        delay - delay / 5 <= r <= delay + delay / 5,
{
    let spread: u64 = delay / 5;
    let offset: u64 = random % (2 * spread + 1);
    delay - spread + offset
}

/// Parameters of the reconnection policy.
pub struct ReconnectPolicy {
    pub base_delay_ms: u64,
    pub max_delay_ms: u64,
    pub max_attempts: u32,
}

/// How many reconnect attempts have failed since the last time the session went live,
/// and the delay chosen for the latest one.
pub struct BackoffState {
    pub attempt: u32,
    pub next_delay_ms: u64,
}

/// What to do after the connection was lost.
#[derive(PartialEq, Eq, Structural, Clone, Copy, Debug)]
pub enum ReconnectAction {
    ResumeSession { delay_ms: u64 },
    FreshIdentify { delay_ms: u64 },
    GiveUp,
}

impl ReconnectPolicy {
    pub fn new() -> (r: ReconnectPolicy)
        ensures
            r.base_delay_ms == DEFAULT_BASE_DELAY_MS,
            r.max_delay_ms == DEFAULT_MAX_DELAY_MS,
            r.max_attempts == DEFAULT_MAX_ATTEMPTS,
    {
        ReconnectPolicy {
            base_delay_ms: DEFAULT_BASE_DELAY_MS,
            max_delay_ms: DEFAULT_MAX_DELAY_MS,
            max_attempts: DEFAULT_MAX_ATTEMPTS,
        }
    }

    /// The delay, jitter aside, before reconnect attempt `attempt`.
    pub open spec fn delay_for(&self, attempt: nat) -> nat {
        capped_delay(self.base_delay_ms as nat, self.max_delay_ms as nat, attempt)
    }

    /// Decides what follows a disconnect. Below the attempt limit the next attempt resumes
    /// when `resumable`, else identifies afresh, after the delay for the current attempt
    /// count, which then grows by one. At the limit the policy gives up and the state
    /// stays as it was.
    pub fn on_disconnect(&self, state: &mut BackoffState, resumable: bool) -> (r: ReconnectAction)
        ensures
            old(state).attempt >= self.max_attempts ==> r == ReconnectAction::GiveUp
                && *final(state) == *old(state),
            old(state).attempt < self.max_attempts ==> {
                &&& final(state).attempt == old(state).attempt + 1
                &&& final(state).next_delay_ms as nat == self.delay_for(old(state).attempt as nat)
                &&& r == if resumable {
                    ReconnectAction::ResumeSession { delay_ms: final(state).next_delay_ms }
                } else {
                    ReconnectAction::FreshIdentify { delay_ms: final(state).next_delay_ms }
                }
            },
    {
        if state.attempt >= self.max_attempts {
            return ReconnectAction::GiveUp;
        }
        let delay = backoff_delay(self.base_delay_ms, self.max_delay_ms, state.attempt);
        state.attempt = state.attempt + 1;
        state.next_delay_ms = delay;
        if resumable {
            ReconnectAction::ResumeSession { delay_ms: delay }
        } else {
            ReconnectAction::FreshIdentify { delay_ms: delay }
        }
    }
}

impl BackoffState {
    pub fn new() -> (r: BackoffState)
        ensures
            r.attempt == 0,
            r.next_delay_ms == 0,
    {
        BackoffState { attempt: 0, next_delay_ms: 0 }
    }

    /// Called when the session goes live: the attempt count starts over.
    pub fn reset(&mut self)
        ensures
            final(self).attempt == 0,
            final(self).next_delay_ms == 0,
    {
        self.attempt = 0;
        self.next_delay_ms = 0;
    }
}

} // verus!
