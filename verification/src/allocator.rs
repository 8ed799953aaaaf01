use vstd::prelude::*;

use crate::errors::Error;

verus! {

/// Holds between a pre-counter, a post-counter and an identifier exactly
/// when one successful allocation reads the pre-counter, returns it as the
/// identifier, and advances the counter by one. The registry's `create` and
/// `breed` advance their counter the same way, so laws stated over this
/// relation cover them too.
pub open spec fn spec_allocation_step(pre_next: u32, post_next: u32, id: u32) -> bool {
    &&& pre_next < u32::MAX
    &&& id == pre_next
    &&& post_next == pre_next + 1
}

/// The identifier allocator: a single monotonically increasing counter.
/// The counter holds the identifier that the next successful allocation
/// hands out; it never decreases, so issued identifiers are unique for the
/// lifetime of the allocator.
pub struct IdAllocator {
    next: u32,
}

impl IdAllocator {
    /// The identifier the next successful allocation will return.
    pub closed spec fn spec_next(self) -> u32 {
        self.next
    }

    /// Holds between a pre-state, a post-state and an identifier exactly
    /// when one successful allocation from the pre-state yields that
    /// identifier and leaves the post-state.
    pub open spec fn allocates(pre: IdAllocator, post: IdAllocator, id: u32) -> bool {
        spec_allocation_step(pre.spec_next(), post.spec_next(), id)
    }

    /// A fresh allocator, as created at system genesis: the counter starts
    /// at zero.
    pub fn new() -> (r: IdAllocator)
        ensures
            r.spec_next() == 0,
    {
        IdAllocator { next: 0 }
    }

    /// An allocator resumed from a persisted counter value.
    pub fn starting_at(next: u32) -> (r: IdAllocator)
        ensures
            r.spec_next() == next,
    {
        IdAllocator { next }
    }

    /// Read the counter without allocating.
    pub fn next_kitty_id(&self) -> (r: u32)
        ensures
            r == self.spec_next(),
    {
        self.next
    }

    /// Allocate the next identifier: return the current counter value and
    /// advance the counter by one. If the advance would overflow the
    /// counter's type, fail with `IdOverflow` and leave the counter
    /// unchanged.
    pub fn allocate_next_id(&mut self) -> (r: Result<u32, Error>)
        ensures
            match r {
                Ok(id) => IdAllocator::allocates(*old(self), *final(self), id),
                Err(e) => {
                    &&& e == Error::IdOverflow
                    &&& old(self).spec_next() == u32::MAX
                    &&& final(self).spec_next() == old(self).spec_next()
                },
            },
    {
        let current_id = self.next;
        match current_id.checked_add(1) {
            Some(advanced) => {
                self.next = advanced;
                Ok(current_id)
            },
            None => Err(Error::IdOverflow),
        }
    }
}

/// Allocation is strictly increasing: if one allocation succeeds, and a
/// later allocation succeeds from any counter at least the first
/// allocation's post-counter (the counter never decreases), the later
/// identifier is strictly greater — so no identifier is ever issued twice.
pub proof fn lemma_allocation_strictly_increasing(
    pre1_next: u32,
    post1_next: u32,
    id1: u32,
    pre2_next: u32,
    post2_next: u32,
    id2: u32,
)
    requires
        spec_allocation_step(pre1_next, post1_next, id1),
        spec_allocation_step(pre2_next, post2_next, id2),
        post1_next <= pre2_next,
    ensures
        id1 < id2,
{
}

/// In a run of successive successful allocations — each step starting from
/// the counter the previous step left — the identifiers issued are, in
/// order, the consecutive values counting up from the starting counter. In
/// particular a run of N successes from a counter at zero issues exactly
/// 0, 1, ..., N-1, pairwise distinct.
pub proof fn lemma_run_identifiers_in_order(counters: Seq<u32>, ids: Seq<u32>)
    requires
        counters.len() == ids.len() + 1,
        forall|i: int|
            0 <= i < ids.len() ==> spec_allocation_step(counters[i], counters[i + 1], ids[i]),
    ensures
        forall|i: int| 0 <= i < ids.len() ==> ids[i] == counters[0] + i,
    decreases ids.len(),
{
    if ids.len() > 0 {
        let tail_counters = counters.subrange(1, counters.len() as int);
        let tail_ids = ids.subrange(1, ids.len() as int);
        assert forall|i: int| 0 <= i < tail_ids.len() implies spec_allocation_step(
            tail_counters[i],
            tail_counters[i + 1],
            tail_ids[i],
        ) by {
            assert(spec_allocation_step(counters[i + 1], counters[i + 2], ids[i + 1]));
        }
        lemma_run_identifiers_in_order(tail_counters, tail_ids);
        assert(spec_allocation_step(counters[0], counters[1], ids[0]));
        assert forall|i: int| 0 <= i < ids.len() implies ids[i] == counters[0] + i by {
            if i > 0 {
                assert(tail_ids[i - 1] == tail_counters[0] + (i - 1));
            }
        }
    }
}

} // verus!
