//! Frame counting for the periodic rate report.
//!
//! The clock lives with the caller: each tick hands in the time elapsed
//! since the last report, and the counter decides whether a report is due
//! and what it covers.

use vstd::prelude::*;

verus! {

/// Counts frames between reports; a report is due every `report_every`
/// seconds.
#[derive(Clone, Copy, Debug, PartialEq, Eq)]
pub struct Counter {
    pub report_every: u8,
    pub counter: u16,
}

impl Counter {
    pub fn new(report_every: u8) -> (r: Self)
        ensures
            r.report_every == report_every,
            r.counter == 0,
    {
        Self { report_every, counter: 0 }
    }

    /// Counts one frame.  When at least `report_every` seconds have
    /// elapsed since the last report, returns the frames counted so far
    /// together with the elapsed time — their ratio is the frame rate —
    /// and starts a new reporting interval.
    pub fn tick(&mut self, elapsed_millis: u64) -> (r: Option<(u16, u64)>)
        requires
            old(self).counter < u16::MAX,
        ensures
            final(self).report_every == old(self).report_every,
            if elapsed_millis >= old(self).report_every as u64 * 1000 {
                &&& r == Some((old(self).counter, elapsed_millis))
                &&& final(self).counter == 1
            } else {
                &&& r is None
                &&& final(self).counter == old(self).counter + 1
            },
    {
        let result = if elapsed_millis >= (self.report_every as u64) * 1000 {
            let frames = self.counter;
            self.counter = 0;
            Some((frames, elapsed_millis))
        } else {
            None
        };
        self.counter = self.counter + 1;
        result
    }
}

} // verus!
