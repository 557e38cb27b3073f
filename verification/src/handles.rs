use vstd::prelude::*;

use crate::Handle;

verus! {

/// Issues unique stream handles. Handles are monotonically assigned and never
/// reused within one context's lifetime; there is no deallocation or
/// recycling interface, since handle lifecycle is governed by the
/// create/destroy messages, not by the allocator. Single-threaded caller
/// only: all allocations happen on the creator thread.
pub struct HandleCreator {
    next: Handle,
}

/// One allocation step: `post` follows `pre` by issuing exactly `h`.
pub open spec fn allocates(pre: HandleCreator, post: HandleCreator, h: Handle) -> bool {
    &&& h == pre.next_handle()
    &&& pre.next_handle() < u32::MAX
    &&& post.next_handle() == pre.next_handle() + 1
}

impl HandleCreator {
    /// Handles start at `1`, so the counter never sits below it.
    pub closed spec fn wf(self) -> bool {
        self.next >= 1
    }

    /// The handle the next call to `create` will issue.
    pub closed spec fn next_handle(self) -> Handle {
        self.next
    }

    /// The handles issued so far: every value from the first handle up to,
    /// but not including, the next one.
    pub open spec fn issued(self) -> Set<Handle> {
        Set::new(|h: Handle| 1 <= h < self.next_handle())
    }

    /// A fresh allocator has issued nothing and will issue `1` first.
    pub fn new() -> (r: HandleCreator)
        ensures
            r.wf(),
            r.next_handle() == 1,
            r.issued() =~= Set::<Handle>::empty(),
    {
        HandleCreator { next: 1 }
    }

    /// Issues the next unused handle.
    pub fn create(&mut self) -> (h: Handle)
        requires
            old(self).wf(),
            old(self).next_handle() < u32::MAX,
        ensures
            final(self).wf(),
            allocates(*old(self), *final(self), h),
            !old(self).issued().contains(h),
            final(self).issued() =~= old(self).issued().insert(h),
    {
        let h = self.next;
        self.next = self.next + 1;
        h
    }

    /// Whether this allocator has issued the handle.
    pub fn has_issued(&self, h: Handle) -> (r: bool)
        ensures
            r == self.issued().contains(h),
    {
        1 <= h && h < self.next
    }
}

/// Along any chain of allocations the next handle never decreases.
proof fn lemma_next_monotone(states: Seq<HandleCreator>, handles: Seq<Handle>, a: int, b: int)
    requires
        states.len() == handles.len() + 1,
        forall|k: int|
            0 <= k < handles.len() ==> allocates(states[k], states[k + 1], #[trigger] handles[k]),
        0 <= a <= b < states.len(),
    ensures
        states[a].next_handle() <= states[b].next_handle(),
    decreases b - a,
{
    if a < b {
        lemma_next_monotone(states, handles, a, b - 1);
        let k = b - 1;
        assert(allocates(states[k], states[k + 1], handles[k]));
        assert(states[k + 1] == states[b]);
    }
}

/// Handle uniqueness: for any sequence of allocations performed by one
/// allocator within a context's lifetime, no handle value repeats. The
/// sequence is described by its intermediate allocator states: `states[k]`
/// steps to `states[k + 1]` by issuing `handles[k]`.
pub proof fn lemma_handles_never_repeat(
    states: Seq<HandleCreator>,
    handles: Seq<Handle>,
    i: int,
    j: int,
)
    requires
        states.len() == handles.len() + 1,
        forall|k: int|
            0 <= k < handles.len() ==> allocates(states[k], states[k + 1], #[trigger] handles[k]),
        0 <= i < j < handles.len(),
    ensures
        handles[i] != handles[j],
{
    assert(allocates(states[i], states[i + 1], handles[i]));
    assert(allocates(states[j], states[j + 1], handles[j]));
    lemma_next_monotone(states, handles, i + 1, j);
}

} // verus!
