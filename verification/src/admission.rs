//! The admission controller: a counting pool of concurrency permits with a
//! fixed capacity. Holding a permit is the right to keep one request in
//! flight; at most `capacity` permits are ever held at once.

use vstd::prelude::*;

verus! {

/// A permit pool of fixed capacity. `acquire` marks one unit held,
/// `release` returns it; the count of held units never exceeds the
/// capacity, and a unit can only be released while it is held.
pub struct Admission {
    capacity: usize,
    available: usize,
}

impl Admission {
    /// The fixed capacity the pool was created with.
    pub closed spec fn spec_capacity(self) -> int {
        self.capacity as int
    }

    /// How many permits are currently free.
    pub closed spec fn spec_available(self) -> int {
        self.available as int
    }

    /// How many permits are currently held.
    pub open spec fn spec_held(self) -> int {
        self.spec_capacity() - self.spec_available()
    }

    /// The pool's invariant: a positive capacity, and never more free
    /// permits than the capacity (hence never more held than the capacity).
    pub open spec fn wf(self) -> bool {
        &&& self.spec_capacity() >= 1
        &&& self.spec_available() <= self.spec_capacity()
    }

    /// A fresh pool of `capacity` permits, all free.
    pub fn new(capacity: usize) -> (a: Admission)
        requires
            capacity >= 1,
        ensures
            a.wf(),
            a.spec_capacity() == capacity,
            a.spec_available() == capacity,
    {
        Admission { capacity, available: capacity }
    }

    /// Marks one free permit as held. The caller must already know a permit
    /// is free: waiting for one is the runtime's concern, not the pool's.
    pub fn acquire(&mut self)
        requires
            old(self).wf(),
            old(self).spec_available() >= 1,
        ensures
            final(self).wf(),
            final(self).spec_capacity() == old(self).spec_capacity(),
            final(self).spec_available() == old(self).spec_available() - 1,
    {
        self.available = self.available - 1;
    }

    /// Returns one held permit to the pool. Releasing a permit that is not
    /// held is an error, so a held permit is required.
    pub fn release(&mut self)
        requires
            old(self).wf(),
            old(self).spec_held() >= 1,
        ensures
            final(self).wf(),
            final(self).spec_capacity() == old(self).spec_capacity(),
            final(self).spec_available() == old(self).spec_available() + 1,
    {
        self.available = self.available + 1;
    }

    /// The current free-permit count.
    pub fn available(&self) -> (n: usize)
        ensures
            n == self.spec_available(),
    {
        self.available
    }

    /// The fixed capacity.
    pub fn capacity(&self) -> (n: usize)
        ensures
            n == self.spec_capacity(),
    {
        self.capacity
    }

    /// True exactly when every permit has been returned: the completion
    /// barrier's test.
    pub fn all_returned(&self) -> (b: bool)
        ensures
            b == (self.spec_available() == self.spec_capacity()),
    {
        self.available == self.capacity
    }
}

} // verus!
