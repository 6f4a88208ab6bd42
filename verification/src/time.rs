//! Simulated time for the ticker loop.  All values are microseconds.
//!
//! A `TimeSystem` separates how fast the real clock is ticked (`tick_rate`,
//! the interval a runtime loop sleeps between rounds) from how much
//! simulated time each round advances (`true_tick_rate`), so a run can go
//! faster than real time.

use vstd::prelude::*;

use crate::connection::sat_add_u64;

verus! {

/// The ticker loop's clock.
#[derive(Clone, Copy, PartialEq, Eq, Structural, Debug)]
pub struct TimeSystem {
    /// The real interval between rounds, in microseconds.
    pub tick_rate: u64,
    /// The simulated time one round advances, in microseconds.
    pub true_tick_rate: u64,
    /// The simulated time elapsed so far, in microseconds.
    pub tick_time: u64,
}

impl TimeSystem {
    /// A clock that advances simulated time at the real rate.
    pub fn new(tick_rate: u64) -> (r: TimeSystem)
        ensures
            r == (TimeSystem { tick_rate, true_tick_rate: tick_rate, tick_time: 0 }),
    {
        TimeSystem { tick_rate, true_tick_rate: tick_rate, tick_time: 0 }
    }

    /// A faster-than-real-time clock: each round of `tick_rate` real
    /// microseconds advances `true_rate` simulated microseconds.
    pub fn new_ftrt(tick_rate: u64, true_rate: u64) -> (r: TimeSystem)
        ensures
            r == (TimeSystem { tick_rate, true_tick_rate: true_rate, tick_time: 0 }),
    {
        TimeSystem { tick_rate, true_tick_rate: true_rate, tick_time: 0 }
    }

    /// Advances simulated time by one round, stopping at the top of `u64`.
    pub fn tick(&mut self)
        ensures
            *final(self) == (TimeSystem {
                tick_time: sat_add_u64(old(self).tick_time, old(self).true_tick_rate),
                ..*old(self)
            }),
    {
        self.tick_time = self.tick_time.saturating_add(self.true_tick_rate);
    }

    /// The simulated time elapsed so far, in microseconds.
    pub fn get_time(&self) -> (r: u64)
        ensures
            r == self.tick_time,
    {
        self.tick_time
    }

    /// The real interval between rounds, in microseconds.
    pub fn rate(&self) -> (r: u64)
        ensures
            r == self.tick_rate,
    {
        self.tick_rate
    }
}

} // verus!
