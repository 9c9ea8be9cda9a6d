use vstd::prelude::*;

verus! {

/// Hands out request ids: 0, 1, 2, ... in turn, never one twice.
pub struct IdAllocator {
    next: u64,
}

/// One call of `next` that handed out `out`, taking the allocator from `pre`
/// to `post`.
pub open spec fn allocation_step(pre: IdAllocator, post: IdAllocator, out: u64) -> bool {
    &&& pre.issued() < u64::MAX
    &&& out as nat == pre.issued()
    &&& post.issued() == pre.issued() + 1
}

/// `states` are the allocator before and after each call of a run that starts
/// fresh, and `outs` the ids that the calls handed out.
pub open spec fn allocation_run(states: Seq<IdAllocator>, outs: Seq<u64>) -> bool {
    &&& states.len() == outs.len() + 1
    &&& states[0].issued() == 0
    &&& forall|i: int|
        0 <= i < outs.len() ==> allocation_step(
            #[trigger] states[i],
            states[i + 1],
            outs[i],
        )
}

impl IdAllocator {
    /// How many ids have been handed out.
    pub closed spec fn issued(&self) -> nat {
        self.next as nat
    }

    pub fn new() -> (r: IdAllocator)
        ensures
            r.issued() == 0,
    {
        IdAllocator { next: 0 }
    }

    /// The next id, or `None` once every id has been used (the allocator then
    /// stays as it is).
    pub fn next(&mut self) -> (r: Option<u64>)
        ensures
            old(self).issued() < u64::MAX ==> r is Some && allocation_step(
                *old(self),
                *final(self),
                r->Some_0,
            ),
            old(self).issued() >= u64::MAX ==> r is None && final(self).issued() == old(
                self,
            ).issued(),
    {
        if self.next == u64::MAX {
            None
        } else {
            let id = self.next;
            self.next = self.next + 1;
            Some(id)
        }
    }
}

/// Over any run of calls on a fresh allocator, the i-th call hands out i: the
/// ids of N calls are exactly 0 to N - 1, with no repeat and no gap.
pub proof fn lemma_ids_unique(states: Seq<IdAllocator>, outs: Seq<u64>)
    requires
        allocation_run(states, outs),
    ensures
        forall|i: int| 0 <= i < outs.len() ==> #[trigger] outs[i] as int == i,
        forall|i: int, j: int| 0 <= i < j < outs.len() ==> outs[i] != outs[j],
{
    assert forall|i: int| 0 <= i <= outs.len() implies #[trigger] states[i].issued() == i by {
        lemma_issued_count(states, outs, i);
    }
    assert forall|i: int| 0 <= i < outs.len() implies #[trigger] outs[i] as int == i by {
        assert(allocation_step(states[i], states[i + 1], outs[i]));
        assert(states[i].issued() == i);
    }
}

proof fn lemma_issued_count(states: Seq<IdAllocator>, outs: Seq<u64>, i: int)
    requires
        allocation_run(states, outs),
        0 <= i <= outs.len(),
    ensures
        states[i].issued() == i,
    decreases i,
{
    if i > 0 {
        lemma_issued_count(states, outs, i - 1);
        assert(allocation_step(states[i - 1], states[i], outs[i - 1]));
    }
}

} // verus!
