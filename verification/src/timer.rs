//! A decrementing hardware timer advanced at a fixed real-time rate,
//! decoupled from the instruction clock: the host ticks it once per
//! instruction and it decrements once per `cpu rate / 60` ticks.

use vstd::prelude::*;

verus! {

/// Timer decrements per second.
pub const TIMER_RATE: u64 = 60;

/// A single-byte counter that decrements toward zero once per `tick_limit`
/// instruction ticks.
#[derive(Debug)]
pub struct Timer {
    pub value: u8,
    pub ticks_passed: u64,
    pub tick_limit: u64,
}

impl Timer {
    /// The sub-tick counter never reaches the point where one more tick
    /// could overflow it: it is zero or still short of the limit.
    pub open spec fn wf(self) -> bool {
        self.ticks_passed == 0 || self.ticks_passed < self.tick_limit
    }

    /// A stopped timer for a host that executes `cpu_tick_rate` instructions
    /// per second.
    pub fn with_cpu_rate(cpu_tick_rate: u64) -> (r: Self)
        ensures
            r.wf(),
            r.value == 0,
            r.ticks_passed == 0,
            r.tick_limit == cpu_tick_rate / TIMER_RATE,
    {
        let tick_limit = cpu_tick_rate / TIMER_RATE;
        Self { value: 0, ticks_passed: 0, tick_limit }
    }

    /// One instruction tick: a running timer counts sub-ticks and decrements
    /// by one each time the limit is reached; a stopped timer stays put.
    pub fn tick(&mut self)
        requires
            old(self).wf(),
        ensures
            final(self).wf(),
            final(self).tick_limit == old(self).tick_limit,
            if old(self).value == 0 {
                *final(self) == *old(self)
            } else if old(self).ticks_passed + 1 >= old(self).tick_limit {
                final(self).value == old(self).value - 1 && final(self).ticks_passed == 0
            } else {
                final(self).value == old(self).value && final(self).ticks_passed == old(
                    self,
                ).ticks_passed + 1
            },
    {
        if self.value == 0 {
            return ;
        }
        self.ticks_passed = self.ticks_passed + 1;
        if self.ticks_passed >= self.tick_limit {
            self.value = self.value - 1;
            self.ticks_passed = 0;
        }
    }

    pub fn get(&self) -> (r: u8)
        ensures
            r == self.value,
    {
        self.value
    }

    /// Assigns the timer and restarts the sub-tick interval, so no partially
    /// elapsed interval carries over.
    pub fn set(&mut self, value: u8)
        ensures
            final(self).wf(),
            final(self).value == value,
            final(self).ticks_passed == 0,
            final(self).tick_limit == old(self).tick_limit,
    {
        self.value = value;
        self.ticks_passed = 0;
    }
}

} // verus!
