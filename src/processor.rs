use vstd::prelude::*;

verus! {

/// The timer of a single-capacity station: a configured processing duration and
/// the time still remaining on the current agent, both in whole time units.
#[derive(Debug)]
pub struct ProcessorSingle {
    process_time: u64,
    remaining_time: u64,
}

impl ProcessorSingle {
    /// The configured processing duration.
    pub closed spec fn duration(&self) -> u64 {
        self.process_time
    }

    /// The time still remaining.
    pub closed spec fn remaining(&self) -> u64 {
        self.remaining_time
    }

    pub fn new() -> (p: ProcessorSingle)
        ensures
            p.duration() == 0,
            p.remaining() == 0,
    {
        ProcessorSingle { process_time: 0, remaining_time: 0 }
    }

    pub fn get_remaining_time(&self) -> (r: u64)
        ensures
            r == self.remaining(),
    {
        self.remaining_time
    }

    /// Sets the remaining time. A value above the configured duration is a
    /// programming error: the duration must be raised first.
    pub fn set_remaining_time(&mut self, time: u64)
        requires
            time <= old(self).duration(),
        ensures
            final(self).remaining() == time,
            final(self).duration() == old(self).duration(),
            final(self).remaining() <= final(self).duration(),
    {
        self.remaining_time = time;
    }

    /// Sets the configured duration; the remaining time is left as it is.
    pub fn set_process_time(&mut self, time: u64)
        ensures
            final(self).duration() == time,
            final(self).remaining() == old(self).remaining(),
    {
        self.process_time = time;
    }

    pub fn get_process_time(&self) -> (r: u64)
        ensures
            r == self.duration(),
    {
        self.process_time
    }
}

} // verus!
