//! A repeating timer that counts elapsed time against an interval.

use vstd::prelude::*;

verus! {

/// A repeating timer. It fires on every tick that brings the elapsed time up
/// to the interval, and then keeps what is left over towards the next round.
#[derive(Clone, Copy, Debug, PartialEq, Eq, Structural)]
pub struct Timer {
    /// Time counted in the current round, in microseconds.
    pub elapsed: u64,
    /// Length of a round, in microseconds.
    pub interval: u64,
}

impl Timer {
    /// Time left in the current round.
    pub open spec fn remaining(self) -> int {
        if self.elapsed < self.interval {
            self.interval - self.elapsed
        } else {
            0
        }
    }

    /// Whether a tick of `dt` uses up the time left.
    pub open spec fn fires(self, dt: u32) -> bool {
        dt >= self.remaining()
    }

    /// The timer after a tick of `dt`: while it does not fire the elapsed
    /// time grows by `dt`; when it fires, whole rounds are dropped from the
    /// elapsed time (nothing is kept where the interval is zero).
    pub open spec fn ticked(self, dt: u32) -> Timer {
        let total: int = self.elapsed + dt;
        let kept: int = if !self.fires(dt) {
            total
        } else if self.interval == 0 {
            0
        } else {
            total % (self.interval as int)
        };
        Timer { elapsed: kept as u64, interval: self.interval }
    }

    /// A timer at the start of a round of the given length.
    pub fn new(interval: u64) -> (t: Timer)
        ensures
            t == (Timer { elapsed: 0, interval }),
    {
        Timer { elapsed: 0, interval }
    }

    /// Advances the timer by `dt` and says whether it fired.
    pub fn tick(&mut self, dt: u32) -> (fired: bool)
        ensures
            fired == old(self).fires(dt),
            *final(self) == old(self).ticked(dt),
    {
        let total: u128 = self.elapsed as u128 + dt as u128;
        if total < self.interval as u128 {
            self.elapsed = total as u64;
            false
        } else {
            if self.interval == 0 {
                self.elapsed = 0;
            } else {
                self.elapsed = (total % (self.interval as u128)) as u64;
            }
            true
        }
    }

    /// Changes the length of a round. The elapsed time is kept, so a round
    /// that has already run longer than the new interval ends on the next tick.
    pub fn set_interval(&mut self, interval: u64)
        ensures
            *final(self) == (Timer { elapsed: old(self).elapsed, interval }),
    {
        self.interval = interval;
    }

    /// Starts the current round again.
    pub fn reset(&mut self)
        ensures
            *final(self) == (Timer { elapsed: 0, interval: old(self).interval }),
    {
        self.elapsed = 0;
    }
}

} // verus!
