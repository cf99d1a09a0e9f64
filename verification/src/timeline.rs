//! The monotonic output timeline of a capture source.
//!
//! Every source measures timestamps from the shared capture-start instant.
//! A clock reading is clamped up to the last emitted stamp, so the stream of
//! stamps a source emits never decreases, whatever the clock reads.

use vstd::prelude::*;

verus! {

/// The stamp emitted for a clock reading: the reading itself, unless an
/// earlier stamp was larger.
pub open spec fn stamp_spec(last_ms: u64, now_ms: u64) -> u64 {
    if now_ms >= last_ms {
        now_ms
    } else {
        last_ms
    }
}

/// Tags the frames of one capture source with non-decreasing timestamps.
pub struct MonotonicStamper {
    last_ms: u64,
}

impl MonotonicStamper {
    /// The last emitted stamp.
    pub closed spec fn spec_last(&self) -> u64 {
        self.last_ms
    }

    /// A fresh timeline, starting at zero.
    pub fn new() -> (r: Self)
        ensures
            r.spec_last() == 0u64,
    {
        MonotonicStamper { last_ms: 0 }
    }

    /// Stamp one frame: the clock reading, clamped up to the last stamp.
    pub fn stamp(&mut self, now_ms: u64) -> (r: u64)
        ensures
            r == stamp_spec(old(self).spec_last(), now_ms),
            r >= old(self).spec_last(),
            final(self).spec_last() == r,
    {
        if now_ms >= self.last_ms {
            self.last_ms = now_ms;
        }
        self.last_ms
    }
}

/// For every source, emitted timestamps are non-decreasing: of two stamps
/// emitted one after the other, the second is at least the first, whatever
/// the clock read each time.
pub proof fn lemma_stamps_monotonic(last_ms: u64, now1_ms: u64, now2_ms: u64)
    ensures
        stamp_spec(last_ms, now1_ms) <= stamp_spec(stamp_spec(last_ms, now1_ms), now2_ms),
{
}

} // verus!
