use vstd::prelude::*;

verus! {

/// Hands out Wayland object ids in increasing order, starting at 4.
pub struct ObjectIdAllocator {
    next: u32,
}

impl View for ObjectIdAllocator {
    /// The id that the next call of `next_id` hands out.
    type V = u32;

    closed spec fn view(&self) -> u32 {
        self.next
    }
}

impl ObjectIdAllocator {
    /// The first id handed out: ids 1 to 3 are taken by the display, the
    /// registry and the first sync callback.
    pub open spec fn first_id() -> u32 {
        4
    }

    pub fn new() -> (a: Self)
        ensures
            a@ == Self::first_id(),
    {
        ObjectIdAllocator { next: 4 }
    }

    /// Returns the next id. The counter is a `u32`: the last id,
    /// `u32::MAX`, cannot be handed out since the counter would overflow.
    pub fn next_id(&mut self) -> (id: u32)
        requires
            old(self)@ < u32::MAX,
        ensures
            id == old(self)@,
            final(self)@ == old(self)@ + 1,
    {
        let id = self.next;
        self.next += 1;
        id
    }
}

/// Two successive calls of `next_id` hand out two consecutive, hence
/// distinct, ids: `id1` is handed out in the step from `a0` to `a1`, and
/// `id2` in the step from `a1` to `a2`.
pub proof fn law_successive_ids_distinct(
    a0: ObjectIdAllocator,
    id1: u32,
    a1: ObjectIdAllocator,
    id2: u32,
    a2: ObjectIdAllocator,
)
    requires
        id1 == a0@,
        a1@ == a0@ + 1,
        id2 == a1@,
        a2@ == a1@ + 1,
    ensures
        id2 == id1 + 1,
        id1 != id2,
{
}

} // verus!
