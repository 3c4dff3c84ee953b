//! The permit pool's accounting: a fixed-capacity counter of probes in
//! their network-send phase. One pool is shared across every probe of a
//! checking invocation; a probe acquires one permit before sending and
//! releases it afterwards, so at no instant are more than `capacity` probes
//! in flight. The waiting itself is the runtime's affair; this type carries
//! the bound and its proof.

use vstd::prelude::*;

verus! {

/// A fixed-capacity pool of permits, counting how many are out.
#[derive(Debug, Clone, Copy, PartialEq, Eq, Structural)]
pub struct PermitPool {
    pub capacity: usize,
    pub in_flight: usize,
}

impl PermitPool {
    /// The pool never hands out more permits than its capacity.
    pub open spec fn wf(self) -> bool {
        self.in_flight <= self.capacity
    }

    /// A fresh pool with every permit free.
    pub fn new(capacity: usize) -> (p: PermitPool)
        ensures
            p.wf(),
            p.capacity == capacity,
            p.in_flight == 0,
    {
        PermitPool { capacity, in_flight: 0 }
    }

    /// Take one permit if one is free: succeeds exactly when fewer than
    /// `capacity` are out.
    pub fn try_acquire(&mut self) -> (got: bool)
        requires
            old(self).wf(),
        ensures
            final(self).wf(),
            final(self).capacity == old(self).capacity,
            got == (old(self).in_flight < old(self).capacity),
            final(self).in_flight == if got {
                old(self).in_flight + 1
            } else {
                old(self).in_flight as int
            },
    {
        if self.in_flight < self.capacity {
            self.in_flight = self.in_flight + 1;
            true
        } else {
            false
        }
    }

    /// Hand one permit back.
    pub fn release(&mut self)
        requires
            old(self).wf(),
            old(self).in_flight > 0,
        ensures
            final(self).wf(),
            final(self).capacity == old(self).capacity,
            final(self).in_flight == old(self).in_flight - 1,
    {
        self.in_flight = self.in_flight - 1;
    }
}

/// However many probes are queued, the pool keeps the number in their
/// network-send phase at or below its capacity.
pub proof fn lemma_pool_bounded(p: PermitPool)
    requires
        p.wf(),
    ensures
        p.in_flight <= p.capacity,
{
}

} // verus!
