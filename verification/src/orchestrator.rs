//! Connection liveness: the reconnect policy, the watchdog, and the timer
//! tick that drives both.
//!
//! The orchestrator owns two pieces of mutable liveness state: the
//! configured reconnect timeout (fixed at construction, in milliseconds)
//! and the monotonic timestamp of the last connect attempt.  A transport
//! re-bind can be demanded by the engine (an `Expired` outcome from a
//! timer advance) or by the watchdog (a stale or absent handshake); either
//! demand still has to pass the reconnect guard on the last-connect age, so
//! an actual re-bind needs both views of the link to be stale — except
//! when no connect was ever recorded, which reconnects unconditionally.
//! The stamp is refreshed before the network call is made, so a second
//! trigger within the same tick finds a fresh stamp and is debounced.

use vstd::prelude::*;
use crate::config::Config;
use crate::dispatch::{plan_timer, TimerPlan};
use crate::outcome::Outcome;

verus! {

/// Milliseconds elapsed from `since` to `now` on a monotonic clock,
/// saturating at zero if `now` is somehow not ahead.
pub open spec fn elapsed_ms(now: u64, since: u64) -> int {
    if now >= since {
        now - since
    } else {
        0
    }
}

/// The reconnect guard: a connect is issued only when a timeout is
/// configured, and then only when no connect was ever recorded or the
/// last one is older than the timeout.
pub open spec fn reconnect_fires(
    timeout_ms: Option<u64>,
    last_connect_ms: Option<u64>,
    now_mono_ms: u64,
) -> bool {
    match timeout_ms {
        Option::None => false,
        Option::Some(t) => match last_connect_ms {
            Option::None => true,
            Option::Some(lc) => elapsed_ms(now_mono_ms, lc) > t,
        },
    }
}

/// The watchdog's view: with a timeout configured, the session is stale
/// when no handshake ever succeeded, or when the wall clock minus the
/// reported handshake age exceeds the timeout.
pub open spec fn watchdog_stale(
    timeout_ms: Option<u64>,
    handshake_age_ms: Option<u64>,
    now_epoch_ms: u64,
) -> bool {
    match timeout_ms {
        Option::None => false,
        Option::Some(t) => match handshake_age_ms {
            Option::None => true,
            Option::Some(age) => now_epoch_ms - age > t,
        },
    }
}

/// One whole timer tick, as a function of the liveness state: whether a
/// connect is issued and what the last-connect stamp becomes.  The engine
/// expiry is serviced first, the watchdog second; each passes through the
/// reconnect guard, and a trigger that fires refreshes the stamp before
/// the next is consulted.
pub open spec fn spec_tick_transition(
    timeout_ms: Option<u64>,
    last_connect_ms: Option<u64>,
    expired: bool,
    handshake_age_ms: Option<u64>,
    now_epoch_ms: u64,
    now_mono_ms: u64,
) -> (bool, Option<u64>) {
    let first = expired && reconnect_fires(timeout_ms, last_connect_ms, now_mono_ms);
    let last1 = if first {
        Option::Some(now_mono_ms)
    } else {
        last_connect_ms
    };
    let second = watchdog_stale(timeout_ms, handshake_age_ms, now_epoch_ms)
        && reconnect_fires(timeout_ms, last1, now_mono_ms);
    let last2 = if second {
        Option::Some(now_mono_ms)
    } else {
        last1
    };
    (first || second, last2)
}

/// What one timer tick asks the surrounding process to do.
pub struct TickPlan {
    /// Bytes to write to the transport channel, if any.
    pub send: Option<Vec<u8>>,
    /// Bytes to write to the interface channel, if any.
    pub deliver: Option<Vec<u8>>,
    /// Whether to log an unexpected engine outcome.
    pub warn: bool,
    /// Whether to issue a transport connect to the configured remote.
    pub connect: bool,
}

/// The liveness state of the single session.
pub struct Orchestrator {
    /// Reconnect timeout in milliseconds; `None` turns reconnection off.
    pub reconnect_timeout_ms: Option<u64>,
    /// Monotonic stamp of the last connect attempt, `None` before the
    /// first.
    pub last_connect_ms: Option<u64>,
}

impl Orchestrator {
    /// A fresh orchestrator: the configured timeout in milliseconds, no
    /// connect recorded yet.
    pub fn new(config: &Config) -> (s: Self)
        ensures
            config.reconnect_timeout matches Some(secs)
                ==> s.reconnect_timeout_ms == Some(((secs as u64) * 1000) as u64),
            config.reconnect_timeout is None ==> s.reconnect_timeout_ms is None,
            s.last_connect_ms is None,
    {
        let reconnect_timeout_ms: Option<u64> = match config.reconnect_timeout {
            Option::Some(secs) => Option::Some((secs as u64) * 1000),
            Option::None => Option::None,
        };
        Orchestrator { reconnect_timeout_ms, last_connect_ms: Option::None }
    }

    /// Record the moment the startup connect succeeded.  That connect is
    /// the one that must not fail; afterwards the loop runs forever.
    pub fn on_startup_connected(&mut self, now_mono_ms: u64)
        ensures
            final(self).reconnect_timeout_ms == old(self).reconnect_timeout_ms,
            final(self).last_connect_ms == Some(now_mono_ms),
    {
        self.last_connect_ms = Option::Some(now_mono_ms);
    }

    /// The reconnect policy: decide through the guard, and when it fires,
    /// refresh the last-connect stamp *before* the network call — the
    /// caller issues the connect only after this returns, so a slow or
    /// failing attempt can never be retried early by another trigger.
    pub fn try_reconnect(&mut self, now_mono_ms: u64) -> (connect: bool)
        ensures
            connect == reconnect_fires(
                old(self).reconnect_timeout_ms,
                old(self).last_connect_ms,
                now_mono_ms,
            ),
            final(self).reconnect_timeout_ms == old(self).reconnect_timeout_ms,
            final(self).last_connect_ms == if connect {
                Some(now_mono_ms)
            } else {
                old(self).last_connect_ms
            },
    {
        let t: u64 = match self.reconnect_timeout_ms {
            Option::Some(t) => t,
            Option::None => {
                return false;
            }
        };
        let due: bool = match self.last_connect_ms {
            Option::Some(lc) => (if now_mono_ms >= lc {
                now_mono_ms - lc
            } else {
                0
            }) > t,
            Option::None => true,
        };
        if due {
            self.last_connect_ms = Option::Some(now_mono_ms);
        }
        due
    }

    /// The watchdog: detect silent peer death by handshake age and, when
    /// stale, run the reconnect policy.  A connect is issued only when
    /// both this staleness check and the reconnect guard agree.
    ///
    /// The age must not exceed the wall clock: a handshake cannot lie in
    /// the future.
    pub fn watchdog(
        &mut self,
        handshake_age_ms: Option<u64>,
        now_epoch_ms: u64,
        now_mono_ms: u64,
    ) -> (connect: bool)
        requires
            handshake_age_ms matches Some(age) ==> age <= now_epoch_ms,
        ensures
            connect == (watchdog_stale(
                old(self).reconnect_timeout_ms,
                handshake_age_ms,
                now_epoch_ms,
            ) && reconnect_fires(
                old(self).reconnect_timeout_ms,
                old(self).last_connect_ms,
                now_mono_ms,
            )),
            final(self).reconnect_timeout_ms == old(self).reconnect_timeout_ms,
            final(self).last_connect_ms == if connect {
                Some(now_mono_ms)
            } else {
                old(self).last_connect_ms
            },
    {
        let t: u64 = match self.reconnect_timeout_ms {
            Option::Some(t) => t,
            Option::None => {
                return false;
            }
        };
        let stale: bool = match handshake_age_ms {
            Option::Some(age) => now_epoch_ms - age > t,
            Option::None => true,
        };
        if stale {
            self.try_reconnect(now_mono_ms)
        } else {
            false
        }
    }

    /// One timer tick: dispatch the engine's timer-advance outcome, then
    /// run the watchdog.  The returned plan is everything the tick asks
    /// of the surrounding process.
    pub fn on_tick(
        &mut self,
        timer_outcome: Outcome,
        handshake_age_ms: Option<u64>,
        now_epoch_ms: u64,
        now_mono_ms: u64,
    ) -> (plan: TickPlan)
        requires
            handshake_age_ms matches Some(age) ==> age <= now_epoch_ms,
        ensures
            (plan.connect, final(self).last_connect_ms) == spec_tick_transition(
                old(self).reconnect_timeout_ms,
                old(self).last_connect_ms,
                timer_outcome is Expired,
                handshake_age_ms,
                now_epoch_ms,
                now_mono_ms,
            ),
            final(self).reconnect_timeout_ms == old(self).reconnect_timeout_ms,
            (timer_outcome matches Outcome::EmitNetwork(b) ==> plan.send matches Some(s)
                && s@ == b@ && plan.deliver is None && !plan.warn),
            (timer_outcome matches Outcome::Deliver4(b) ==> plan.deliver matches Some(d)
                && d@ == b@ && plan.send is None && !plan.warn),
            (timer_outcome matches Outcome::Deliver6(b) ==> plan.deliver matches Some(d)
                && d@ == b@ && plan.send is None && !plan.warn),
            (timer_outcome is Done || timer_outcome is Expired ==> plan.send is None
                && plan.deliver is None && !plan.warn),
            (timer_outcome is Other ==> plan.warn && plan.send is None && plan.deliver is None),
    {
        let mut plan = TickPlan { send: Option::None, deliver: Option::None, warn: false, connect: false };
        match plan_timer(timer_outcome) {
            TimerPlan::Send(b) => {
                plan.send = Option::Some(b);
            }
            TimerPlan::Nothing => {}
            TimerPlan::Deliver(b) => {
                plan.deliver = Option::Some(b);
            }
            TimerPlan::Reconnect => {
                plan.connect = self.try_reconnect(now_mono_ms);
            }
            TimerPlan::Warn => {
                plan.warn = true;
            }
        }
        let wd = self.watchdog(handshake_age_ms, now_epoch_ms, now_mono_ms);
        plan.connect = plan.connect || wd;
        plan
    }
}

/// With no reconnect timeout configured, no tick ever issues a transport
/// connect and the liveness state never changes, whatever the engine, the
/// handshake age or the clocks report.
pub proof fn lemma_unset_timeout_never_connects(
    last_connect_ms: Option<u64>,
    expired: bool,
    handshake_age_ms: Option<u64>,
    now_epoch_ms: u64,
    now_mono_ms: u64,
)
    ensures
        !spec_tick_transition(
            Option::None,
            last_connect_ms,
            expired,
            handshake_age_ms,
            now_epoch_ms,
            now_mono_ms,
        ).0,
        spec_tick_transition(
            Option::None,
            last_connect_ms,
            expired,
            handshake_age_ms,
            now_epoch_ms,
            now_mono_ms,
        ).1 == last_connect_ms,
{
}

/// The reconnect guard in time: a tick strictly within the timeout of the
/// last connect issues no transport connect, whatever demanded it; a tick
/// past the timeout issues one as soon as the engine reports expiry or
/// the watchdog finds the handshake stale.
pub proof fn lemma_connect_guard(
    t: u64,
    lc: u64,
    expired: bool,
    handshake_age_ms: Option<u64>,
    now_epoch_ms: u64,
    now_mono_ms: u64,
)
    ensures
        elapsed_ms(now_mono_ms, lc) <= t ==> !spec_tick_transition(
            Option::Some(t),
            Option::Some(lc),
            expired,
            handshake_age_ms,
            now_epoch_ms,
            now_mono_ms,
        ).0,
        elapsed_ms(now_mono_ms, lc) > t && expired ==> spec_tick_transition(
            Option::Some(t),
            Option::Some(lc),
            expired,
            handshake_age_ms,
            now_epoch_ms,
            now_mono_ms,
        ).0,
        elapsed_ms(now_mono_ms, lc) > t && watchdog_stale(
            Option::Some(t),
            handshake_age_ms,
            now_epoch_ms,
        ) ==> spec_tick_transition(
            Option::Some(t),
            Option::Some(lc),
            expired,
            handshake_age_ms,
            now_epoch_ms,
            now_mono_ms,
        ).0,
{
}

/// A session that never completed a handshake is stale to the watchdog at
/// every tick, whatever the clocks say; if on top of that no connect was
/// ever recorded, the tick issues a connect unconditionally.
pub proof fn lemma_never_handshaked_is_stale(
    t: u64,
    expired: bool,
    now_epoch_ms: u64,
    now_mono_ms: u64,
)
    ensures
        watchdog_stale(Option::Some(t), Option::None, now_epoch_ms),
        spec_tick_transition(
            Option::Some(t),
            Option::None,
            expired,
            Option::None,
            now_epoch_ms,
            now_mono_ms,
        ).0,
{
}

/// Debounce: a stamp refreshed at the current instant closes the guard, so
/// the two triggers of one tick can never both re-bind the transport.
pub proof fn lemma_fresh_stamp_blocks_reconnect(t: u64, now_mono_ms: u64)
    ensures
        !reconnect_fires(Option::Some(t), Option::Some(now_mono_ms), now_mono_ms),
{
}

} // verus!
