//! A clock that only advances when it is told to.

use vstd::prelude::*;

verus! {

/// A stopwatch for simulated time, counted in nanoseconds. It advances only
/// through [`PassiveClock::tick`] and never wraps: once full it stays full.
#[derive(Clone, Copy, Debug)]
pub struct PassiveClock {
    nanos: u64,
}

impl PassiveClock {
    /// The time accumulated since the clock was made or last reset.
    pub closed spec fn spec_elapsed(&self) -> nat {
        self.nanos as nat
    }

    /// A clock on which no time has passed.
    pub fn new() -> (clock: Self)
        ensures
            clock.spec_elapsed() == 0,
    {
        PassiveClock { nanos: 0 }
    }

    /// Lets `delta_nanos` nanoseconds pass, stopping at the largest time the
    /// clock can hold.
    pub fn tick(&mut self, delta_nanos: u64)
        ensures
            final(self).spec_elapsed() == tick_result(old(self).spec_elapsed(), delta_nanos as nat),
    {
        self.nanos = self.nanos.saturating_add(delta_nanos);
    }

    /// Takes the clock back to zero.
    pub fn reset(&mut self)
        ensures
            final(self).spec_elapsed() == 0,
    {
        self.nanos = 0;
    }

    /// The time accumulated since the clock was made or last reset.
    pub fn elapsed(&self) -> (nanos: u64)
        ensures
            nanos == self.spec_elapsed(),
    {
        self.nanos
    }
}

/// Ticking never takes time off a clock, and a reset followed by one tick
/// shows exactly that tick.
pub proof fn lemma_tick_is_monotonic(before: nat, delta: nat)
    requires
        before <= u64::MAX,
        delta <= u64::MAX,
    ensures
        before <= tick_result(before, delta),
        tick_result(0, delta) == delta,
        tick_result(before, 0) == before,
{
}

/// The reading of a clock that showed `before` after `delta` more nanoseconds.
pub open spec fn tick_result(before: nat, delta: nat) -> nat {
    if before + delta <= u64::MAX {
        (before + delta) as nat
    } else {
        u64::MAX as nat
    }
}

} // verus!
