//! The timeline clock owned by the GPU context.
//!
//! The context proper (instance, device, queue, command pool, timeline
//! semaphore) lives with the embedding application, which alone can make
//! native calls.  What the rest of this crate needs from it is the clock:
//! the last timeline value issued to a submission.  The *completed* value is
//! a driver query; callers obtain it natively and pass it in as a plain
//! number wherever a decision depends on it.

use vstd::prelude::*;

verus! {

/// The CPU-side state of the GPU context: the monotonically increasing
/// timeline counter.  `timeline_value` is the last value handed out for a
/// submission; the driver signals each submission's value on completion, so
/// the completed value reported by the driver never exceeds it.
pub struct Core {
    /// Last timeline value issued by `next_timeline_value`.
    pub timeline_value: u64,
}

impl Core {
    /// A fresh context clock: no submission has been issued, so the driver's
    /// completed value starts at the same zero.
    pub fn new() -> (core: Core)
        ensures
            core.timeline_value == 0,
    {
        Core { timeline_value: 0 }
    }

    /// Issues the next timeline value, to be signaled by exactly one
    /// upcoming submission.  Strictly increasing: every call returns a value
    /// larger than every value issued before it.
    pub fn next_timeline_value(&mut self) -> (value: u64)
        requires
            old(self).timeline_value < u64::MAX,
        ensures
            value == old(self).timeline_value + 1,
            final(self).timeline_value == value,
    {
        let next_value = self.timeline_value + 1;
        self.timeline_value = next_value;
        next_value
    }

    /// The last issued value, without advancing the clock.  A resource
    /// enqueued as "safe once everything in flight right now finishes" is
    /// tagged with this value.
    pub fn current_timeline_value(&self) -> (value: u64)
        ensures
            value == self.timeline_value,
    {
        self.timeline_value
    }
}

} // verus!
