use vstd::prelude::*;

verus! {

/// The simulation clock: counts ticks against a tick budget.
#[derive(Debug)]
pub struct Time {
    max_time_steps: u64,
    current_time_step: u64,
}

impl Time {
    /// The configured tick budget.
    pub closed spec fn max_steps(&self) -> u64 {
        self.max_time_steps
    }

    /// The number of ticks taken so far.
    pub closed spec fn current_step(&self) -> u64 {
        self.current_time_step
    }

    /// The clock is finished once the ticks taken reach the budget.
    pub open spec fn finished(&self) -> bool {
        self.current_step() >= self.max_steps()
    }

    /// A fresh clock: a budget of one tick, none taken.
    pub fn new() -> (t: Time)
        ensures
            t.max_steps() == 1,
            t.current_step() == 0,
    {
        Time { max_time_steps: 1, current_time_step: 0 }
    }

    /// Takes one tick; the count is not clamped at the budget.
    pub fn timestep(&mut self)
        requires
            old(self).current_step() < u64::MAX,
        ensures
            final(self).current_step() == old(self).current_step() + 1,
            final(self).max_steps() == old(self).max_steps(),
    {
        self.current_time_step = self.current_time_step + 1;
    }

    pub fn set_max_time_steps(&mut self, max_time_steps: u64)
        ensures
            final(self).max_steps() == max_time_steps,
            final(self).current_step() == old(self).current_step(),
    {
        self.max_time_steps = max_time_steps;
    }

    pub fn get_max_time_steps(&self) -> (r: u64)
        ensures
            r == self.max_steps(),
    {
        self.max_time_steps
    }

    pub fn is_finished(&self) -> (r: bool)
        ensures
            r == self.finished(),
    {
        self.current_time_step >= self.max_time_steps
    }

    pub fn get_current_time_step(&self) -> (r: u64)
        ensures
            r == self.current_step(),
    {
        self.current_time_step
    }
}

} // verus!
