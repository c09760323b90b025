//! The correlation table: request id to the one-time slot through which the
//! reply reaches its caller.
use std::collections::HashMap;
use vstd::prelude::*;

verus! {

broadcast use vstd::std_specs::hash::group_hash_axioms;

/// Request identifier carried in every frame.
pub type RequestId = i32;

/// Pending requests of one session, keyed by id. `S` is the producer end
/// of a caller's response slot; dropping it without sending cancels the
/// caller.
pub struct ResponseTable<S> {
    slots: HashMap<RequestId, S>,
}

impl<S> View for ResponseTable<S> {
    type V = Map<RequestId, S>;

    closed spec fn view(&self) -> Map<RequestId, S> {
        self.slots@
    }
}

/// What a removal or a replacing insert hands back: the slot that was held
/// under `id` in `m`, if any.
pub open spec fn held_slot<S>(m: Map<RequestId, S>, id: RequestId) -> Option<S> {
    if m.contains_key(id) {
        Some(m[id])
    } else {
        None
    }
}

impl<S> ResponseTable<S> {
    /// An empty table.
    pub fn new() -> (t: Self)
        ensures
            t@ == Map::<RequestId, S>::empty(),
    {
        ResponseTable { slots: HashMap::new() }
    }

    /// Registers `slot` as the receiver of the reply to `id`. A slot that was
    /// still held under `id` is handed back.
    pub fn register(&mut self, id: RequestId, slot: S) -> (displaced: Option<S>)
        ensures
            final(self)@ == old(self)@.insert(id, slot),
            displaced == held_slot(old(self)@, id),
    {
        self.slots.insert(id, slot)
    }

    /// Removes and returns the slot waiting for `id`, if any.
    pub fn take(&mut self, id: RequestId) -> (slot: Option<S>)
        ensures
            final(self)@ == old(self)@.remove(id),
            slot == held_slot(old(self)@, id),
    {
        self.slots.remove(&id)
    }

    /// Whether a request with `id` is pending.
    pub fn contains(&self, id: RequestId) -> (r: bool)
        ensures
            r == self@.contains_key(id),
    {
        self.slots.contains_key(&id)
    }

    /// Number of pending requests.
    pub fn len(&self) -> (n: usize)
        ensures
            n == self@.len(),
    {
        self.slots.len()
    }
}

} // verus!
