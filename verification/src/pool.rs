//! A bounded, reusable set of open transport resources.
//!
//! Connections to the notification listener are expensive to set up, so the
//! host-scheduler side keeps them in a pool between round trips. The pool is
//! bounded at a fixed capacity: a check-in beyond capacity is refused, and the
//! caller must then close the resource itself instead of pooling it.

use vstd::prelude::*;

verus! {

/// Number of open connections to the notification server that one host
/// worker keeps pooled.
pub const PER_WORKER_POOL_SIZE: usize = 512;

/// A bounded pool of reusable resources, checked out before a transport
/// round trip and checked back in afterwards.
pub struct ResourcePool<T> {
    items: Vec<T>,
    capacity: usize,
}

impl<T> ResourcePool<T> {
    /// The resources currently held by the pool, oldest first.
    pub closed spec fn items(self) -> Seq<T> {
        self.items@
    }

    /// The fixed capacity the pool was created with.
    pub closed spec fn capacity(self) -> nat {
        self.capacity as nat
    }

    /// The pool never holds more resources than its fixed capacity.
    pub open spec fn wf(self) -> bool {
        self.items().len() <= self.capacity()
    }

    /// Creates an empty pool bounded at `capacity`.
    pub fn new(capacity: usize) -> (p: ResourcePool<T>)
        ensures
            p.wf(),
            p.items() == Seq::<T>::empty(),
            p.capacity() == capacity,
    {
        ResourcePool { items: Vec::new(), capacity }
    }

    /// Number of resources currently pooled.
    pub fn len(&self) -> (n: usize)
        ensures
            n == self.items().len(),
    {
        self.items.len()
    }

    /// Takes the most recently checked-in resource out of the pool, or
    /// returns `None` when the pool is empty (the caller then opens a fresh
    /// resource instead).
    pub fn checkout(&mut self) -> (r: Option<T>)
        requires
            old(self).wf(),
        ensures
            final(self).wf(),
            final(self).capacity() == old(self).capacity(),
            old(self).items().len() == 0 ==> (r is None
                && final(self).items() == old(self).items()),
            old(self).items().len() > 0 ==> (r == Some(old(self).items().last())
                && final(self).items() == old(self).items().drop_last()),
    {
        self.items.pop()
    }

    /// Returns a resource to the pool. Succeeds exactly when the pool is
    /// below capacity; on `false` the pool is unchanged and the caller must
    /// close the resource itself.
    pub fn checkin(&mut self, item: T) -> (accepted: bool)
        requires
            old(self).wf(),
        ensures
            final(self).wf(),
            final(self).capacity() == old(self).capacity(),
            accepted == (old(self).items().len() < old(self).capacity()),
            accepted ==> final(self).items() == old(self).items().push(item),
            !accepted ==> final(self).items() == old(self).items(),
    {
        if self.items.len() == self.capacity {
            return false;
        }
        self.items.push(item);
        true
    }
}

/// The pool's bound is an invariant: whatever sequence of checkouts and
/// check-ins produced a well-formed pool, it holds at most its fixed
/// capacity, and a check-in at capacity is refused with the pool unchanged.
pub proof fn lemma_pool_never_exceeds_capacity<T>(p: ResourcePool<T>)
    requires
        p.wf(),
    ensures
        p.items().len() <= p.capacity(),
{
}

} // verus!
