//! The fixed-cadence tick scheduler: simulation state changes exactly once
//! per elapsed cadence, however often the host's render loop spins. The host
//! banks elapsed wall-clock time here and asks whether a step is due; the
//! clock itself stays with the host.

use vstd::prelude::*;

verus! {

/// An accumulator of elapsed time against a fixed cadence.
pub struct Scheduler {
    pub cadence_ms: u64,
    pub accumulated_ms: u64,
}

impl Scheduler {
    /// A scheduler at the default cadence of 500 ms with no time banked.
    pub fn default() -> (s: Scheduler)
        ensures
            s.cadence_ms == 500,
            s.accumulated_ms == 0,
    {
        Scheduler { cadence_ms: 500, accumulated_ms: 0 }
    }

    /// Bank elapsed wall-clock milliseconds, saturating at the counter's
    /// limit rather than wrapping.
    pub fn accrue(&mut self, elapsed_ms: u64)
        ensures
            final(self).cadence_ms == old(self).cadence_ms,
            final(self).accumulated_ms == if old(self).accumulated_ms + elapsed_ms <= u64::MAX {
                old(self).accumulated_ms + elapsed_ms
            } else {
                u64::MAX as int
            },
    {
        if elapsed_ms <= u64::MAX - self.accumulated_ms {
            self.accumulated_ms = self.accumulated_ms + elapsed_ms;
        } else {
            self.accumulated_ms = u64::MAX;
        }
    }

    /// Whether one simulation step is due. If it is, one cadence's worth of
    /// banked time is consumed, so a burst of banked time yields one step
    /// per call until the bank runs below the cadence.
    pub fn try_step(&mut self) -> (due: bool)
        ensures
            due == (old(self).accumulated_ms >= old(self).cadence_ms),
            final(self).cadence_ms == old(self).cadence_ms,
            due ==> final(self).accumulated_ms == old(self).accumulated_ms - old(
                self,
            ).cadence_ms,
            !due ==> final(self).accumulated_ms == old(self).accumulated_ms,
    {
        if self.accumulated_ms >= self.cadence_ms {
            self.accumulated_ms = self.accumulated_ms - self.cadence_ms;
            true
        } else {
            false
        }
    }
}

} // verus!
