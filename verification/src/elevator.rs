//! The elevator: a depth inside the shaft, advanced on its own cadence.

use vstd::prelude::*;

verus! {

/// The elevator's position in the shaft: `0` at the top, growing downward,
/// never past `max_depth`. It advances one step at a time on a fixed time
/// cadence, independent of the simulation tick rate, which the host drives.
pub struct Elevator {
    depth: usize,
    max_depth: usize,
}

impl Elevator {
    pub closed spec fn spec_depth(&self) -> int {
        self.depth as int
    }

    pub closed spec fn spec_max_depth(&self) -> int {
        self.max_depth as int
    }

    /// The elevator's one invariant: the depth stays inside the shaft.
    pub open spec fn wf(&self) -> bool {
        0 <= self.spec_depth() <= self.spec_max_depth()
    }

    /// A new elevator parked at the top of the shaft.
    pub fn new(max_depth: usize) -> (e: Elevator)
        ensures
            e.wf(),
            e.spec_depth() == 0,
            e.spec_max_depth() == max_depth,
    {
        Elevator { depth: 0, max_depth }
    }

    /// Current depth, read-only.
    pub fn depth(&self) -> (d: usize)
        ensures
            d == self.spec_depth(),
    {
        self.depth
    }

    pub fn max_depth(&self) -> (d: usize)
        ensures
            d == self.spec_max_depth(),
    {
        self.max_depth
    }

    /// Move one step deeper; at the bottom of the shaft this is a no-op,
    /// not an error.
    pub fn advance(&mut self)
        requires
            old(self).wf(),
        ensures
            final(self).wf(),
            final(self).spec_max_depth() == old(self).spec_max_depth(),
            final(self).spec_depth() == if old(self).spec_depth() < old(self).spec_max_depth() {
                old(self).spec_depth() + 1
            } else {
                old(self).spec_depth()
            },
    {
        if self.depth < self.max_depth {
            self.depth = self.depth + 1;
        }
    }
}

/// Law: however many times `advance` is called, the depth never leaves
/// `[0, max_depth]` — `new` establishes the invariant and `advance` both
/// requires and re-establishes it, so it holds after any call chain.
pub proof fn lemma_elevator_depth_in_range(e: &Elevator)
    requires
        e.wf(),
    ensures
        0 <= e.spec_depth() <= e.spec_max_depth(),
{
}

} // verus!
