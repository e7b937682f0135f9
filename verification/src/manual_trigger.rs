//! Operator-initiated update trigger.
//!
//! A physical input lets an operator force an update cycle: once the input
//! has been held long enough, the firmware marks an update pending and issues
//! a software reset to re-enter the boot-stage image. The input is sampled by
//! periodic polling and debounced here: a press fires exactly once, after a
//! fixed run of consecutive active samples, and releasing the input re-arms
//! the trigger. The caller samples the pin and, when the trigger fires, calls
//! `UpdateStatusStore::set_pending` and resets.

use vstd::prelude::*;

verus! {

/// Consecutive active samples required before the trigger fires.
pub const DEBOUNCE_SAMPLES: u32 = 5;

/// The debounce state of the operator input.
pub struct ManualTrigger {
    count: u32,
}

impl ManualTrigger {
    /// How many consecutive active samples have been seen.
    pub closed spec fn spec_count(self) -> u32 {
        self.count
    }

    /// The count never runs past the debounce threshold.
    pub open spec fn wf(self) -> bool {
        self.spec_count() <= DEBOUNCE_SAMPLES
    }

    /// A trigger that has not seen the input active.
    pub fn new() -> (r: ManualTrigger)
        ensures
            r.spec_count() == 0,
            r.wf(),
    {
        ManualTrigger { count: 0 }
    }

    /// Feeds one polled sample of the input and says whether the trigger
    /// fires now. It fires exactly on the sample that completes the
    /// debounce run — once per press, however long the input stays held —
    /// and an inactive sample re-arms it.
    pub fn sample(&mut self, active: bool) -> (fire: bool)
        requires
            old(self).wf(),
        ensures
            final(self).wf(),
            !active ==> final(self).spec_count() == 0 && !fire,
            active && old(self).spec_count() < DEBOUNCE_SAMPLES ==> final(self).spec_count()
                == old(self).spec_count() + 1,
            active && old(self).spec_count() == DEBOUNCE_SAMPLES ==> final(self).spec_count()
                == DEBOUNCE_SAMPLES,
            fire == (active && old(self).spec_count() == DEBOUNCE_SAMPLES - 1),
    {
        if !active {
            self.count = 0;
            return false;
        }
        if self.count < DEBOUNCE_SAMPLES {
            self.count = self.count + 1;
            self.count == DEBOUNCE_SAMPLES
        } else {
            false
        }
    }
}

} // verus!
