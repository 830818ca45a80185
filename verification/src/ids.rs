//! Task id allocation.
//!
//! Task ids are small unsigned integers handed out by a monotonically
//! increasing counter that wraps around at the width of the id type. An id
//! may be legitimately reused once the task that held it has been fully
//! collected; memory tied to ids is therefore bounded by the id space.

use vstd::prelude::*;

verus! {

/// Generator of task ids: a wrapping counter over the full `u16` range.
pub struct TaskIdGen {
    next: u16,
}

impl TaskIdGen {
    /// The value the next call to `allocate` will return.
    pub closed spec fn counter(self) -> u16 {
        self.next
    }

    /// Creates a generator whose first allocated id is 1.
    pub fn new() -> (g: TaskIdGen)
        ensures
            g.counter() == 1u16,
    {
        TaskIdGen { next: 1 }
    }

    /// Returns the current counter value and advances the counter by one,
    /// wrapping around at the end of the id space.
    pub fn allocate(&mut self) -> (id: u16)
        ensures
            id == old(self).counter(),
            final(self).counter() == (old(self).counter() + 1) % 0x10000,
    {
        let id = self.next;
        self.next = self.next.wrapping_add(1);
        id
    }
}

} // verus!
