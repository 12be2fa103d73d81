//! The gravity tick accumulator: it collects elapsed time and says when a
//! gravity step is due.

use vstd::prelude::*;

verus! {

/// The mathematical model of the accumulator's state, in microseconds.
pub struct TickerView {
    pub tick_interval_time: int,
    pub min_tick_interval_time: int,
    pub tick_interval_delta: int,
    pub time_since_last_tick: int,
}

/// The tick accumulator: the current tick interval, the floor it may
/// shrink to, the step it shrinks by, and the time collected so far.
pub struct Ticker {
    pub tick_interval_time: u128,
    min_tick_interval_time: u128,
    tick_interval_delta: u128,
    time_since_last_tick: u128,
}

impl View for Ticker {
    type V = TickerView;

    closed spec fn view(&self) -> TickerView {
        TickerView {
            tick_interval_time: self.tick_interval_time as int,
            min_tick_interval_time: self.min_tick_interval_time as int,
            tick_interval_delta: self.tick_interval_delta as int,
            time_since_last_tick: self.time_since_last_tick as int,
        }
    }
}

impl Ticker {
    /// A fresh accumulator with nothing collected yet.
    pub fn new(tick_interval_time: u128, min_tick_interval_time: u128,
        tick_interval_delta: u128) -> (r: Ticker)
        ensures
            r@.tick_interval_time == tick_interval_time,
            r@.min_tick_interval_time == min_tick_interval_time,
            r@.tick_interval_delta == tick_interval_delta,
            r@.time_since_last_tick == 0,
    {
        Ticker {
            tick_interval_time,
            min_tick_interval_time,
            tick_interval_delta,
            time_since_last_tick: 0,
        }
    }

    /// Collect elapsed time; when the collected total passes the tick
    /// interval, consume one interval's worth and report that a gravity
    /// step is due.
    pub fn update(&mut self, delta_time: &u128) -> (r: bool)
        requires
            old(self)@.time_since_last_tick + *delta_time <= u128::MAX,
        ensures
            final(self)@.tick_interval_time == old(self)@.tick_interval_time,
            final(self)@.min_tick_interval_time == old(self)@.min_tick_interval_time,
            final(self)@.tick_interval_delta == old(self)@.tick_interval_delta,
            r == (old(self)@.time_since_last_tick + *delta_time > old(self)@.tick_interval_time),
            final(self)@.time_since_last_tick == if r {
                old(self)@.time_since_last_tick + *delta_time - old(self)@.tick_interval_time
            } else {
                old(self)@.time_since_last_tick + *delta_time
            },
    {
        self.time_since_last_tick = self.time_since_last_tick + *delta_time;
        if self.time_since_last_tick > self.tick_interval_time {
            self.time_since_last_tick = self.time_since_last_tick - self.tick_interval_time;
            return true;
        }
        false
    }

    /// Shrink the tick interval by one step, never below the floor.
    pub fn increase_tick_speed(&mut self)
        requires
            old(self)@.tick_interval_delta <= old(self)@.tick_interval_time,
        ensures
            final(self)@.min_tick_interval_time == old(self)@.min_tick_interval_time,
            final(self)@.tick_interval_delta == old(self)@.tick_interval_delta,
            final(self)@.time_since_last_tick == old(self)@.time_since_last_tick,
            final(self)@.tick_interval_time == if old(self)@.tick_interval_time
                - old(self)@.tick_interval_delta < old(self)@.min_tick_interval_time {
                old(self)@.min_tick_interval_time
            } else {
                old(self)@.tick_interval_time - old(self)@.tick_interval_delta
            },
    {
        let new_interval = self.tick_interval_time - self.tick_interval_delta;
        if new_interval < self.min_tick_interval_time {
            self.tick_interval_time = self.min_tick_interval_time;
        } else {
            self.tick_interval_time = new_interval;
        }
    }

    /// Forget any collected time.
    pub fn reset_tick_timer(&mut self)
        ensures
            final(self)@.tick_interval_time == old(self)@.tick_interval_time,
            final(self)@.min_tick_interval_time == old(self)@.min_tick_interval_time,
            final(self)@.tick_interval_delta == old(self)@.tick_interval_delta,
            final(self)@.time_since_last_tick == 0,
    {
        self.time_since_last_tick = 0;
    }
}

} // verus!
