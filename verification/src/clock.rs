//! The frame pacer.
//!
//! A [`Clock`] paces the inner loop at a nominal frame rate: each frame it
//! computes how long the loop must still wait before the next tick boundary,
//! and records the wall time the completed tick actually took. The simulation
//! step then advances by the *measured* delta, not the nominal one, so game
//! timing stays wall-clock accurate under frame drops.
//!
//! The pacer itself never reads the wall clock: the host hands every reading
//! in as nanoseconds from an arbitrary fixed origin. Clock monotonicity is
//! assumed from the host environment, stated here as `requires` on each
//! reading.

use vstd::prelude::*;

verus! {

/// Pacer state: the instant the current tick started and the measured
/// duration of the most recently completed tick, both in nanoseconds.
pub struct Clock {
    /// Reading taken when the current tick began.
    pub tick_start: u64,
    /// Duration of the most recently completed tick; zero before the
    /// first tick completes.
    pub last_delta: u64,
}

impl Clock {
    /// How long the loop must still wait, `target` nanoseconds after the
    /// start of the current tick, given the reading `now`.
    pub open spec fn wait_spec(self, target: u64, now: u64) -> u64 {
        if now - self.tick_start >= target {
            0u64
        } else {
            (target - (now - self.tick_start)) as u64
        }
    }

    /// Creates a pacer whose current tick begins at the reading `now`.
    /// Before the first tick completes, the delta is only the default zero.
    pub fn new(now: u64) -> (r: Clock)
        ensures
            r.tick_start == now,
            r.last_delta == 0,
    {
        Clock { tick_start: now, last_delta: 0 }
    }

    /// The duration of the most recently completed tick.
    pub fn get_last_delta(&self) -> (r: u64)
        ensures
            r == self.last_delta,
    {
        self.last_delta
    }

    /// The remaining wait until at least `target` nanoseconds have elapsed
    /// since the current tick started: zero once the boundary has passed.
    /// After waiting this long, at least `target` has elapsed.
    pub fn wait_needed(&self, target: u64, now: u64) -> (r: u64)
        requires
            now >= self.tick_start,
            self.tick_start + target <= u64::MAX,
        ensures
            r == self.wait_spec(target, now),
            now + r >= self.tick_start + target,
    {
        let elapsed = now - self.tick_start;
        if elapsed >= target {
            0
        } else {
            target - elapsed
        }
    }

    /// Ends the current tick at the reading `now`: records the elapsed wall
    /// time as the new delta and starts the next tick.
    pub fn record_tick(&mut self, now: u64)
        requires
            now >= old(self).tick_start,
        ensures
            final(self).last_delta == now - old(self).tick_start,
            final(self).tick_start == now,
    {
        self.last_delta = now - self.tick_start;
        self.tick_start = now;
    }
}

/// Pacing law: a tick that honours the computed wait cannot complete early.
/// If the loop waits at least `wait_spec(target, now)` after the reading
/// `now`, then whatever later reading `after` ends the tick, the recorded
/// delta is at least `target`.
pub proof fn lemma_pacer_blocks(c: Clock, target: u64, now: u64, after: u64)
    requires
        now >= c.tick_start,
        c.tick_start + target <= u64::MAX,
        after >= now + c.wait_spec(target, now),
    ensures
        after - c.tick_start >= target,
{
}

} // verus!
