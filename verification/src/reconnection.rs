//! Reconnection state machine for the simulator's shared-memory connection.

use vstd::prelude::*;
use std::time::{Duration, Instant};
use crate::capture_error::CaptureError;

verus! {

/// Maximum reconnection attempts (30 seconds at one attempt per second).
pub const MAX_RECONNECTION_ATTEMPTS: u32 = 30;

/// Delay between reconnection attempts, in seconds.
pub const RECONNECTION_INTERVAL_SECS: u64 = 1;

#[verifier::external_type_specification]
#[verifier::external_body]
pub struct ExInstant(Instant);

/// `Clone::clone` on `std::time::Instant`: `Instant` is `Copy`, so its clone
/// is the same value.
pub assume_specification[ <Instant as Clone>::clone ](t: &Instant) -> (r: Instant)
    ensures
        r == *t,
;

/// Calls `std::time::Instant::now`. Nothing is claimed of the result: it is
/// the current time.
#[verifier::external_body]
fn instant_now() -> (t: Instant) {
    Instant::now()
}

/// Calls `std::time::Instant::elapsed`. Nothing is claimed of the result: it
/// depends on the current time.
#[verifier::external_body]
fn instant_elapsed(t: &Instant) -> (d: Duration) {
    t.elapsed()
}

/// Calls `std::time::Duration::as_millis`. Nothing is claimed of the result.
#[verifier::external_body]
fn duration_as_millis(d: &Duration) -> (ms: u128) {
    d.as_millis()
}

/// Connection state of the shared-memory connection.
#[derive(Debug, Clone, PartialEq)]
pub enum ConnectionState {
    /// Successfully connected.
    Connected,
    /// Attempting to reconnect after a disconnection.
    Reconnecting { attempt: u32, started_at: Instant },
    /// Disconnected and not attempting to reconnect.
    Disconnected,
}

/// Status information from a reconnection tick.
#[derive(Debug, Clone, Copy, PartialEq, Eq, Structural)]
pub enum ReconnectionStatus {
    /// Currently attempting reconnection.
    Attempting { attempt_number: u32, max_attempts: u32, elapsed_ms: u64 },
    /// Not in the reconnecting state.
    NotReconnecting,
}

/// The state after one reconnection tick.
pub open spec fn tick_state(s: ConnectionState) -> ConnectionState {
    match s {
        ConnectionState::Reconnecting { attempt, started_at } => {
            if attempt >= MAX_RECONNECTION_ATTEMPTS {
                ConnectionState::Disconnected
            } else {
                ConnectionState::Reconnecting { attempt: (attempt + 1) as u32, started_at }
            }
        },
        _ => s,
    }
}

/// The outcome of one reconnection tick from state `s`, given the time
/// elapsed since reconnection began (in milliseconds and in whole seconds).
pub open spec fn tick_result(s: ConnectionState, elapsed_ms: u64, elapsed_s: u32) -> Result<
    ReconnectionStatus,
    CaptureError,
> {
    match s {
        ConnectionState::Reconnecting { attempt, started_at } => {
            if attempt >= MAX_RECONNECTION_ATTEMPTS {
                Err(CaptureError::IrsdkTimeout { elapsed_s })
            } else {
                Ok(
                    ReconnectionStatus::Attempting {
                        attempt_number: attempt,
                        max_attempts: MAX_RECONNECTION_ATTEMPTS,
                        elapsed_ms,
                    },
                )
            }
        },
        _ => Ok(ReconnectionStatus::NotReconnecting),
    }
}

/// The state after `n` reconnection ticks.
pub open spec fn ticks(s: ConnectionState, n: nat) -> ConnectionState
    decreases n,
{
    if n == 0 {
        s
    } else {
        tick_state(ticks(s, (n - 1) as nat))
    }
}

/// Manages the connection lifecycle and reconnection logic.
#[derive(Debug)]
pub struct ReconnectionManager {
    state: ConnectionState,
}

impl View for ReconnectionManager {
    type V = ConnectionState;

    closed spec fn view(&self) -> ConnectionState {
        self.state
    }
}

/// While reconnecting, the attempt number lies between 1 and the maximum.
pub open spec fn attempt_in_range(s: ConnectionState) -> bool {
    s matches ConnectionState::Reconnecting { attempt, .. } ==> 1 <= attempt
        <= MAX_RECONNECTION_ATTEMPTS
}

impl ReconnectionManager {
    /// Every manager keeps its attempt number in range.
    #[verifier::type_invariant]
    spec fn attempt_stays_in_range(self) -> bool {
        attempt_in_range(self.state)
    }
}

/// The result of a tick after `ms` milliseconds, read once: the tick gets
/// them as milliseconds and as whole seconds, each cut to its width.
pub open spec fn tick_result_after_ms(s: ConnectionState, ms: u128) -> Result<
    ReconnectionStatus,
    CaptureError,
> {
    tick_result(s, ms as u64, (ms / 1000) as u32)
}

impl ReconnectionManager {
    /// Creates a new reconnection manager in the disconnected state.
    pub fn new() -> (r: ReconnectionManager)
        ensures
            r@ == ConnectionState::Disconnected,
    {
        ReconnectionManager { state: ConnectionState::Disconnected }
    }

    /// Returns the current connection state; while reconnecting, its attempt
    /// number lies between 1 and the maximum, whatever calls led to it.
    pub fn state(&self) -> (r: &ConnectionState)
        ensures
            *r == self@,
            attempt_in_range(*r),
    {
        proof {
            use_type_invariant(self);
        }
        &self.state
    }

    /// Transitions to the connected state.
    pub fn mark_connected(&mut self)
        ensures
            final(self)@ == ConnectionState::Connected,
    {
        self.state = ConnectionState::Connected;
    }

    /// Begins reconnection attempts: the first attempt, started now.
    pub fn begin_reconnection(&mut self)
        ensures
            final(self)@ matches ConnectionState::Reconnecting { attempt, .. } && attempt == 1,
    {
        self.state = ConnectionState::Reconnecting { attempt: 1, started_at: instant_now() };
    }

    /// Performs one reconnection tick, given the time elapsed since
    /// reconnection began. The last allowed attempt times out and gives up.
    pub fn tick_reconnection_after(&mut self, elapsed_ms: u64, elapsed_s: u32) -> (r: Result<
        ReconnectionStatus,
        CaptureError,
    >)
        ensures
            final(self)@ == tick_state(old(self)@),
            r == tick_result(old(self)@, elapsed_ms, elapsed_s),
    {
        proof {
            use_type_invariant(&*self);
        }
        match &self.state {
            ConnectionState::Reconnecting { attempt, started_at } => {
                let attempt = *attempt;
                if attempt >= MAX_RECONNECTION_ATTEMPTS {
                    self.state = ConnectionState::Disconnected;
                    return Err(CaptureError::IrsdkTimeout { elapsed_s });
                }
                let started_at = *started_at;
                self.state = ConnectionState::Reconnecting { attempt: attempt + 1, started_at };
                Ok(
                    ReconnectionStatus::Attempting {
                        attempt_number: attempt,
                        max_attempts: MAX_RECONNECTION_ATTEMPTS,
                        elapsed_ms,
                    },
                )
            },
            _ => Ok(ReconnectionStatus::NotReconnecting),
        }
    }

    /// Performs one reconnection tick, measuring the time elapsed since
    /// reconnection began. Returns the attempt to make, or a timeout error
    /// once the maximum number of attempts has been used.
    pub fn tick_reconnection(&mut self) -> (r: Result<ReconnectionStatus, CaptureError>)
        ensures
            final(self)@ == tick_state(old(self)@),
            exists|ms: u128| r == #[trigger] tick_result_after_ms(old(self)@, ms),
    {
        let ms: u128 = match &self.state {
            ConnectionState::Reconnecting { started_at, .. } => {
                let elapsed = instant_elapsed(started_at);
                duration_as_millis(&elapsed)
            },
            _ => 0,
        };
        let elapsed_ms = #[verifier::truncate] (ms as u64);
        let elapsed_s = #[verifier::truncate] ((ms / 1000) as u32);
        let ghost before = self@;
        let r = self.tick_reconnection_after(elapsed_ms, elapsed_s);
        assert(r == tick_result_after_ms(before, ms));
        r
    }

    /// Called when reconnection succeeds: transitions to connected and returns
    /// the duration of the gap, or `None` when no reconnection was under way.
    pub fn on_reconnection_success(&mut self) -> (r: Option<Duration>)
        ensures
            old(self)@ is Reconnecting ==> r is Some && final(self)@ == ConnectionState::Connected,
            !(old(self)@ is Reconnecting) ==> r is None && final(self)@ == old(self)@,
    {
        let gap = match &self.state {
            ConnectionState::Reconnecting { started_at, .. } => Some(instant_elapsed(started_at)),
            _ => None,
        };
        if gap.is_some() {
            self.state = ConnectionState::Connected;
        }
        gap
    }

    /// Marks the connection as disconnected (gives up on reconnection).
    pub fn mark_disconnected(&mut self)
        ensures
            final(self)@ == ConnectionState::Disconnected,
    {
        self.state = ConnectionState::Disconnected;
    }

    /// Returns true if currently attempting to reconnect.
    pub fn is_reconnecting(&self) -> (r: bool)
        ensures
            r == (self@ is Reconnecting),
    {
        match &self.state {
            ConnectionState::Reconnecting { .. } => true,
            _ => false,
        }
    }

    /// Returns true if connected.
    pub fn is_connected(&self) -> (r: bool)
        ensures
            r == (self@ is Connected),
    {
        match &self.state {
            ConnectionState::Connected => true,
            _ => false,
        }
    }
}

impl Default for ReconnectionManager {
    fn default() -> (r: ReconnectionManager)
        ensures
            r@ == ConnectionState::Disconnected,
    {
        ReconnectionManager::new()
    }
}

/// The state in which reconnection has just begun.
pub open spec fn reconnection_begun(started_at: Instant) -> ConnectionState {
    ConnectionState::Reconnecting { attempt: 1, started_at }
}

/// After reconnection begins, the first `MAX_RECONNECTION_ATTEMPTS - 1`
/// ticks keep reconnecting and count the attempts up by one: after `n` ticks
/// the attempt number is `n + 1`, and while it is below the maximum the next
/// tick reports attempt `n + 1` out of `MAX_RECONNECTION_ATTEMPTS`.
pub proof fn lemma_attempts_count_up(started_at: Instant, n: nat)
    requires
        n < MAX_RECONNECTION_ATTEMPTS,
    ensures
        ticks(reconnection_begun(started_at), n) == (ConnectionState::Reconnecting {
            attempt: (n + 1) as u32,
            started_at,
        }),
        n + 1 < MAX_RECONNECTION_ATTEMPTS ==> forall|ms: u64, s: u32|
            #[trigger] tick_result(ticks(reconnection_begun(started_at), n), ms, s) == Ok::<
                ReconnectionStatus,
                CaptureError,
            >(
                ReconnectionStatus::Attempting {
                    attempt_number: (n + 1) as u32,
                    max_attempts: MAX_RECONNECTION_ATTEMPTS,
                    elapsed_ms: ms,
                },
            ),
    decreases n,
{
    if n > 0 {
        lemma_attempts_count_up(started_at, (n - 1) as nat);
    }
}

/// The `MAX_RECONNECTION_ATTEMPTS`-th tick after reconnection begins fails
/// with a timeout and leaves the manager disconnected; further ticks keep it
/// disconnected.
pub proof fn lemma_timeout_after_max_attempts(started_at: Instant, ms: u64, s: u32, extra: nat)
    ensures
        tick_result(
            ticks(reconnection_begun(started_at), (MAX_RECONNECTION_ATTEMPTS - 1) as nat),
            ms,
            s,
        ) == Err::<ReconnectionStatus, CaptureError>(CaptureError::IrsdkTimeout { elapsed_s: s }),
        ticks(reconnection_begun(started_at), MAX_RECONNECTION_ATTEMPTS as nat + extra)
            == ConnectionState::Disconnected,
    decreases extra,
{
    lemma_attempts_count_up(started_at, (MAX_RECONNECTION_ATTEMPTS - 1) as nat);
    if extra > 0 {
        lemma_timeout_after_max_attempts(started_at, ms, s, (extra - 1) as nat);
    }
}

/// From any attempt `a` in range, the next ticks count up: after `n` ticks
/// with `a + n` at most the maximum the attempt is `a + n`, a tick from an
/// attempt below the maximum reports it, and the tick from the maximum
/// times out and leaves the manager disconnected.
pub proof fn lemma_ticks_from_attempt(a: u32, started_at: Instant, n: nat)
    requires
        1 <= a <= MAX_RECONNECTION_ATTEMPTS,
        a + n <= MAX_RECONNECTION_ATTEMPTS,
    ensures
        ticks(ConnectionState::Reconnecting { attempt: a, started_at }, n) == (
        ConnectionState::Reconnecting { attempt: (a + n) as u32, started_at }),
        a + n < MAX_RECONNECTION_ATTEMPTS ==> forall|ms: u64, s: u32|
            #[trigger] tick_result(
                ticks(ConnectionState::Reconnecting { attempt: a, started_at }, n),
                ms,
                s,
            ) == Ok::<ReconnectionStatus, CaptureError>(
                ReconnectionStatus::Attempting {
                    attempt_number: (a + n) as u32,
                    max_attempts: MAX_RECONNECTION_ATTEMPTS,
                    elapsed_ms: ms,
                },
            ),
        a + n == MAX_RECONNECTION_ATTEMPTS ==> {
            &&& forall|ms: u64, s: u32|
                #[trigger] tick_result(
                    ticks(ConnectionState::Reconnecting { attempt: a, started_at }, n),
                    ms,
                    s,
                ) == Err::<ReconnectionStatus, CaptureError>(
                    CaptureError::IrsdkTimeout { elapsed_s: s },
                )
            &&& ticks(ConnectionState::Reconnecting { attempt: a, started_at }, n + 1)
                == ConnectionState::Disconnected
        },
    decreases n,
{
    if n > 0 {
        lemma_ticks_from_attempt(a, started_at, (n - 1) as nat);
    }
}

} // verus!
