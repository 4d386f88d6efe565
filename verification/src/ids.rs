//! Identity allocation.
//!
//! Every long-lived kernel entity carries an opaque 64-bit identity. A
//! registry hands identities out in increasing order and never hands the
//! same one out twice.

use vstd::prelude::*;

verus! {

/// A counter that issues identities `1, 2, 3, ...`.
#[derive(Debug)]
pub struct IdRegistry {
    next: u64,
}

impl IdRegistry {
    /// The identity that the next call of [`IdRegistry::allocate`] returns.
    pub closed spec fn next_id(&self) -> u64 {
        self.next
    }

    /// The identities issued so far.
    pub open spec fn issued(&self) -> Set<u64> {
        Set::new(|id: u64| 1 <= id < self.next_id())
    }

    /// Whether another identity can be issued.
    pub open spec fn has_room(&self) -> bool {
        self.next_id() < u64::MAX
    }

    /// Whether the registry is in a state that `new` and `allocate` can reach.
    pub open spec fn wf(&self) -> bool {
        self.next_id() >= 1
    }

    /// A registry that has issued nothing.
    pub fn new() -> (r: Self)
        ensures
            r.next_id() == 1,
            r.wf(),
            r.issued() =~= Set::<u64>::empty(),
    {
        IdRegistry { next: 1 }
    }

    /// A registry that goes on from `next`, as if the identities below it
    /// had been issued. A registry never starts below 1.
    pub fn starting_at(next: u64) -> (r: Self)
        ensures
            r.next_id() == if next == 0 {
                1
            } else {
                next
            },
            r.wf(),
    {
        IdRegistry {
            next: if next == 0 {
                1
            } else {
                next
            },
        }
    }

    /// Whether another identity can be issued.
    pub fn can_allocate(&self) -> (b: bool)
        ensures
            b == self.has_room(),
    {
        self.next < u64::MAX
    }

    /// Issues the next identity.
    pub fn allocate(&mut self) -> (id: u64)
        requires
            old(self).wf(),
            old(self).has_room(),
        ensures
            id == old(self).next_id(),
            final(self).next_id() == old(self).next_id() + 1,
            final(self).wf(),
            !old(self).issued().contains(id),
            final(self).issued() =~= old(self).issued().insert(id),
    {
        let id: u64 = self.next;
        self.next = self.next + 1;
        id
    }
}

} // verus!
