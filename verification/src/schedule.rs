//! Fixed-rate ticks. The next deadline is the last deadline plus the
//! period, not the present time plus the period: a tick that runs late is
//! late, and is neither skipped nor made up for twice.
//!
//! Times are counted in milliseconds from an origin that the caller picks.

use vstd::prelude::*;

verus! {

/// The period of the reflex loop.
pub const REFLEX_PERIOD_MS: u64 = 20;

/// The period of the deliberation loop.
pub const PLAN_PERIOD_MS: u64 = 5000;

/// The period of the idle loop.
pub const DREAM_PERIOD_MS: u64 = 5000;

/// The sum of two times, held at the largest time that can be counted.
pub open spec fn add_capped(a: int, b: int) -> int {
    if a + b > u64::MAX {
        u64::MAX as int
    } else {
        a + b
    }
}

/// The deadline after `ticks` further ticks.
pub open spec fn deadline_after(next: int, period: int, ticks: nat) -> int
    decreases ticks,
{
    if ticks == 0 {
        next
    } else {
        add_capped(deadline_after(next, period, (ticks - 1) as nat), period)
    }
}

/// The schedule of one loop.
#[derive(Clone, Copy, Debug, PartialEq, Eq, Structural)]
pub struct Schedule {
    pub next: u64,
    pub period: u64,
}

impl Schedule {
    /// A schedule whose first tick is one period after `start`.
    pub fn starting_at(start: u64, period: u64) -> (s: Schedule)
        ensures
            s.period == period,
            s.next == add_capped(start as int, period as int),
    {
        Schedule { next: start.saturating_add(period), period }
    }

    /// Whether the tick is due at `now`.
    pub fn is_due(&self, now: u64) -> (due: bool)
        ensures
            due == (now >= self.next),
    {
        now >= self.next
    }

    /// Moves on to the next tick: one period after the deadline of this one.
    pub fn advance(&mut self)
        ensures
            final(self).period == old(self).period,
            final(self).next == add_capped(old(self).next as int, old(self).period as int),
    {
        self.next = self.next.saturating_add(self.period);
    }
}

/// No drift. However late the ticks ran, the deadline after `ticks` ticks
/// is the first deadline plus that many periods, as long as that time can
/// be counted.
pub proof fn lemma_no_drift(next: int, period: int, ticks: nat)
    requires
        0 <= next,
        0 <= period,
        next + ticks * period <= u64::MAX,
    ensures
        deadline_after(next, period, ticks) == next + ticks * period,
    decreases ticks,
{
    let t = ticks as int;
    if ticks > 0 {
        let before = (ticks - 1) as nat;
        assert(before * period + period == t * period && before * period >= 0)
            by (nonlinear_arith)
            requires
                before == t - 1,
                t >= 1,
                period >= 0,
        ;
        lemma_no_drift(next, period, before);
    } else {
        assert(t * period == 0) by (nonlinear_arith)
            requires
                t == 0,
        ;
    }
}

} // verus!
