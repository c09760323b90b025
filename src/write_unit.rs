//! Decisions of the write unit. The unit takes submitted requests one at a
//! time in submission order, gives each the next id, registers its slot in
//! the table before the frame is written, and dies on the first failed
//! write, taking the failed request's slot back out of the table.
use crate::table::{held_slot, RequestId, ResponseTable};
use vstd::prelude::*;

verus! {

/// Where the write unit stands.
#[derive(PartialEq, Eq, Structural, Clone, Copy, Debug)]
pub enum WritePhase {
    /// Waiting for the next submitted request.
    Idle,
    /// The frame for this id is being encoded, written and flushed.
    Writing(RequestId),
    /// A write failed; the unit serves nothing more.
    Dead,
}

/// What the loop around the write unit does after a write has finished.
pub enum WriteOutcome<S> {
    /// Take the next submitted request.
    Continue,
    /// Stop for good. The slot of the failed request, no longer in the
    /// table, is handed back so that dropping it cancels its caller.
    Stop(Option<S>),
}

/// The id that follows `id`. Ids step by one and, past the largest `i32`,
/// go on from the smallest, as two's-complement addition does.
pub open spec fn following_id(id: RequestId) -> RequestId {
    if id == i32::MAX {
        i32::MIN
    } else {
        (id + 1) as RequestId
    }
}

/// State of the write unit of one session.
pub struct WriteUnit {
    next_request_id: RequestId,
    phase: WritePhase,
}

impl WriteUnit {
    /// The id the next dispatched request gets.
    pub closed spec fn spec_next_id(&self) -> RequestId {
        self.next_request_id
    }

    pub closed spec fn spec_phase(&self) -> WritePhase {
        self.phase
    }

    /// A fresh unit: idle, and the first request gets id 0.
    pub fn new() -> (u: Self)
        ensures
            u.spec_next_id() == 0,
            u.spec_phase() == WritePhase::Idle,
    {
        WriteUnit { next_request_id: 0, phase: WritePhase::Idle }
    }

    pub fn phase(&self) -> (p: WritePhase)
        ensures
            p == self.spec_phase(),
    {
        self.phase
    }

    pub fn next_id(&self) -> (id: RequestId)
        ensures
            id == self.spec_next_id(),
    {
        self.next_request_id
    }

    /// Starts serving one dequeued request: takes the next id, and registers
    /// `slot` under it before anything is written, so that a reply arriving
    /// right after the write always finds it. Returns the id to write the
    /// frame with, and a slot that was still registered under the same id
    /// (only possible once ids have wrapped around).
    pub fn dispatch<S>(&mut self, table: &mut ResponseTable<S>, slot: S) -> (r: (
        RequestId,
        Option<S>,
    ))
        requires
            old(self).spec_phase() == WritePhase::Idle,
        ensures
            r.0 == old(self).spec_next_id(),
            final(self).spec_next_id() == following_id(old(self).spec_next_id()),
            final(self).spec_phase() == WritePhase::Writing(r.0),
            final(table)@ == old(table)@.insert(r.0, slot),
            r.1 == held_slot(old(table)@, r.0),
    {
        let id = self.next_request_id;
        self.next_request_id = if id == i32::MAX {
            i32::MIN
        } else {
            id + 1
        };
        let displaced = table.register(id, slot);
        self.phase = WritePhase::Writing(id);
        (id, displaced)
    }

    /// Records how the encode, write and flush of the frame in flight ended.
    /// On success the unit waits for the next request and the table is left
    /// as it is; on failure the request's entry is removed from the table and
    /// the unit is dead.
    pub fn write_finished<S>(&mut self, table: &mut ResponseTable<S>, written: bool) -> (r:
        WriteOutcome<S>)
        requires
            old(self).spec_phase() is Writing,
        ensures
            final(self).spec_next_id() == old(self).spec_next_id(),
            ({
                let id = old(self).spec_phase()->Writing_0;
                if written {
                    &&& r is Continue
                    &&& final(self).spec_phase() == WritePhase::Idle
                    &&& final(table)@ == old(table)@
                } else {
                    &&& r == WriteOutcome::Stop(held_slot(old(table)@, id))
                    &&& final(self).spec_phase() == WritePhase::Dead
                    &&& final(table)@ == old(table)@.remove(id)
                    &&& !final(table)@.contains_key(id)
                }
            }),
    {
        let id = match self.phase {
            WritePhase::Writing(id) => id,
            _ => 0,
        };
        if written {
            self.phase = WritePhase::Idle;
            WriteOutcome::Continue
        } else {
            let slot = table.take(id);
            self.phase = WritePhase::Dead;
            WriteOutcome::Stop(slot)
        }
    }
}

} // verus!
