//! Small shared utilities: wall-clock performance timing and the
//! validation trait configuration types implement.

use vstd::prelude::*;

use crate::trusted::now_millis;

verus! {

/// Wall-clock timing with named checkpoints.
#[derive(Debug, Clone)]
pub struct PerformanceTiming {
    /// When timing started, milliseconds since the epoch.
    pub start_time_ms: u64,
    /// Named checkpoints with their elapsed milliseconds.
    pub checkpoints: Vec<(String, u64)>,
}

impl PerformanceTiming {
    /// Start timing now.
    pub fn new() -> (t: Self)
        ensures
            t.checkpoints@.len() == 0,
    {
        PerformanceTiming { start_time_ms: now_millis(), checkpoints: Vec::new() }
    }

    /// Record a named checkpoint with the elapsed time so far.  The
    /// elapsed value comes from the wall clock, so nothing is promised
    /// of it beyond being recorded.
    pub fn checkpoint(&mut self, name: &str)
        ensures
            final(self).checkpoints@.len() == old(self).checkpoints@.len() + 1,
            final(self).checkpoints@.last().0@ == name@,
            final(self).checkpoints@.take(old(self).checkpoints@.len() as int)
                == old(self).checkpoints@,
            final(self).start_time_ms == old(self).start_time_ms,
    {
        let now = now_millis();
        let elapsed: u64 = if now >= self.start_time_ms { now - self.start_time_ms } else { 0 };
        let ghost pre = self.checkpoints@;
        self.checkpoints.push((name.to_owned(), elapsed));
        proof {
            assert(self.checkpoints@.take(pre.len() as int) =~= pre);
        }
    }

    /// Elapsed milliseconds since timing started.  The value comes
    /// from the wall clock, so nothing is promised of it.
    pub fn total_duration(&self) -> u64 {
        let now = now_millis();
        if now >= self.start_time_ms {
            now - self.start_time_ms
        } else {
            0
        }
    }
}

impl Default for PerformanceTiming {
    /// Start timing now.
    fn default() -> (t: Self)
        ensures
            t.checkpoints@.len() == 0,
    {
        PerformanceTiming::new()
    }
}

/// Validation of a configuration value.
pub trait Validate {
    /// The error a failed validation reports.
    type Error;

    /// Check the value.
    fn validate(&self) -> Result<(), Self::Error>;
}

} // verus!
