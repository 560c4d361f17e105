//! When the monitor of processor usage writes to its log.
//!
//! The host samples the usage once a second and keeps the sum. After every
//! `interval` samples it logs the mean and starts to count again. An
//! interval of zero never comes due.

use vstd::prelude::*;

verus! {

/// The count of samples since the last log entry.
pub struct LogSchedule {
    count: u64,
    interval: u64,
}

/// The schedule as contracts see it.
pub struct ScheduleView {
    /// The samples taken since the last log entry.
    pub count: nat,
    /// The samples that make up one log entry.
    pub interval: nat,
}

/// Whether the next sample completes an interval.
pub open spec fn comes_due(schedule: ScheduleView) -> bool {
    schedule.interval > 0 && schedule.count + 1 == schedule.interval
}

impl View for LogSchedule {
    type V = ScheduleView;

    closed spec fn view(&self) -> ScheduleView {
        ScheduleView { count: self.count as nat, interval: self.interval as nat }
    }
}

impl LogSchedule {
    #[verifier::type_invariant]
    spec fn counts_within_the_interval(self) -> bool {
        self.count < self.interval || self.count == 0
    }

    /// A schedule that comes due after every `interval` samples.
    pub fn new(interval: u64) -> (schedule: LogSchedule)
        ensures
            schedule@.count == 0,
            schedule@.interval == interval,
    {
        LogSchedule { count: 0, interval }
    }

    /// The samples taken since the last log entry.
    pub fn samples(&self) -> (count: u64)
        ensures
            count == self@.count,
    {
        self.count
    }

    /// The samples that make up one log entry.
    pub fn interval(&self) -> (interval: u64)
        ensures
            interval == self@.interval,
    {
        self.interval
    }

    /// Counts one sample and says whether a log entry is due with it. When
    /// one is, the mean is taken over `interval` samples and the count
    /// starts again.
    pub fn tick(&mut self) -> (due: bool)
        ensures
            due == comes_due(old(self)@),
            final(self)@.interval == old(self)@.interval,
            final(self)@.count == (if due || old(self)@.interval == 0 {
                0
            } else {
                old(self)@.count + 1
            }),
    {
        proof {
            use_type_invariant(&*self);
        }
        if self.interval == 0 {
            false
        } else if self.count + 1 == self.interval {
            self.count = 0;
            true
        } else {
            self.count = self.count + 1;
            false
        }
    }
}

} // verus!
