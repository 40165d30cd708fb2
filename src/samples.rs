//! Bookkeeping of the ring buffers that average frame and update rates: which
//! slot the next sample goes to and how many slots hold a sample.

use vstd::prelude::*;

verus! {

/// Number of slots of each ring buffer.
pub const MAX_SAMPLES: usize = 100;

/// Position of the next sample in a ring of `MAX_SAMPLES` slots; it wraps
/// to the first slot after the last.
pub struct RingCursor {
    index: usize,
}

impl RingCursor {
    pub closed spec fn index_spec(&self) -> nat {
        self.index as nat
    }

    /// The cursor stands on a slot of the ring.
    pub open spec fn wf(&self) -> bool {
        self.index_spec() < MAX_SAMPLES
    }

    /// A cursor on the first slot.
    pub fn new() -> (r: RingCursor)
        ensures
            r.wf(),
            r.index_spec() == 0,
    {
        RingCursor { index: 0 }
    }

    /// The slot that the next sample overwrites.
    pub fn index(&self) -> (r: usize)
        ensures
            r == self.index_spec(),
    {
        self.index
    }

    /// Moves to the following slot, wrapping after the last.
    pub fn advance(&mut self)
        requires
            old(self).wf(),
        ensures
            final(self).wf(),
            final(self).index_spec() == (old(self).index_spec() as int + 1) % (MAX_SAMPLES as int),
    {
        self.index = (self.index + 1) % MAX_SAMPLES;
    }
}

/// How many slots hold a sample after one more is recorded: one more, up to
/// the size of the ring.
pub fn next_sample_count(count: usize) -> (r: usize)
    ensures
        count < MAX_SAMPLES ==> r == count + 1,
        count >= MAX_SAMPLES ==> r == count,
{
    if count < MAX_SAMPLES {
        count + 1
    } else {
        count
    }
}

} // verus!
