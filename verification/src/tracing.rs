//! Running-average timing of a repeatedly executed body.
//!
//! The clock lives with the caller: each run hands in its own duration
//! and the time elapsed since the last report, and the tracer keeps the
//! running average and decides when a report is due.

use vstd::prelude::*;

verus! {

/// Tracks a halving running average of run durations under a tag and
/// reports it every `report_every` seconds.
#[derive(Debug)]
pub struct Tracer {
    pub tag: String,
    pub report_every: u8,
    pub counter_nanos: u64,
}

impl Tracer {
    /// A fresh tracer; the average starts at a small non-zero value.
    pub fn new(tag: String, report_every: u8) -> (r: Self)
        ensures
            r.tag == tag,
            r.report_every == report_every,
            r.counter_nanos == 10,
    {
        Self { tag, report_every, counter_nanos: 10 }
    }

    /// Records one timed run: folds its duration into the running
    /// average.  When at least `report_every` seconds have elapsed since
    /// the last report, the average restarts from this run's duration and
    /// the caller is told to report.
    pub fn run(&mut self, run_nanos: u64, elapsed_millis: u64) -> (r: bool)
        requires
            old(self).counter_nanos + run_nanos <= u64::MAX,
        ensures
            final(self).tag == old(self).tag,
            final(self).report_every == old(self).report_every,
            if elapsed_millis >= old(self).report_every as u64 * 1000 {
                &&& r == true
                &&& final(self).counter_nanos == run_nanos
            } else {
                &&& r == false
                &&& final(self).counter_nanos == (old(self).counter_nanos + run_nanos) / 2
            },
    {
        self.counter_nanos = (self.counter_nanos + run_nanos) / 2;
        if elapsed_millis >= (self.report_every as u64) * 1000 {
            self.counter_nanos = run_nanos;
            true
        } else {
            false
        }
    }
}

} // verus!
