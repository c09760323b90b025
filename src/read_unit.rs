//! Decisions of the read unit. Each decoded frame whose id is pending goes
//! to that request's slot, which leaves the table; any other frame is
//! unsolicited and is published to subscribers. A decode fault is published
//! as the last item and ends the unit, while the requests still pending stay
//! in the table, as they are, until the session is torn down.
//!
//! A reply is handed to its caller as the frame's payload. Parsing it into a
//! typed response is the caller's business, so a payload that does not parse
//! fails only the caller it was meant for and never the read path.
use crate::table::{RequestId, ResponseTable};
use vstd::prelude::*;

verus! {

/// What the read unit got from the inbound stream.
#[derive(PartialEq, Eq, Structural, Clone, Copy, Debug)]
pub enum ReadEvent {
    /// A frame was decoded; it carries this request id.
    Frame(RequestId),
    /// The stream could not be decoded any further.
    DecodeFault,
}

/// What the loop around the read unit does with what it read.
pub enum ReadAction<S> {
    /// Send the frame's payload through this slot: the reply to a pending
    /// request.
    Deliver(S),
    /// Publish the frame to subscribers: no request with its id is pending.
    Publish,
    /// Publish the fault to subscribers, then stop reading for good.
    PublishAndStop,
}

/// State of the read unit of one session.
pub struct ReadUnit {
    terminated: bool,
}

impl ReadUnit {
    /// Whether a decode fault has ended the unit.
    pub closed spec fn spec_terminated(&self) -> bool {
        self.terminated
    }

    /// A unit that is reading.
    pub fn new() -> (u: Self)
        ensures
            !u.spec_terminated(),
    {
        ReadUnit { terminated: false }
    }

    pub fn is_terminated(&self) -> (r: bool)
        ensures
            r == self.spec_terminated(),
    {
        self.terminated
    }

    /// Decides what becomes of one read result. A frame for a pending id
    /// takes that id's slot out of the table, and no other entry changes; an
    /// unsolicited frame leaves the table alone. A decode fault leaves every
    /// pending request in the table and ends the unit.
    pub fn on_event<S>(&mut self, table: &mut ResponseTable<S>, event: ReadEvent) -> (r:
        ReadAction<S>)
        requires
            !old(self).spec_terminated(),
        ensures
            match event {
                ReadEvent::Frame(id) => {
                    &&& !final(self).spec_terminated()
                    &&& final(table)@ == old(table)@.remove(id)
                    &&& if old(table)@.contains_key(id) {
                        r == ReadAction::Deliver(old(table)@[id])
                    } else {
                        r is Publish
                    }
                },
                ReadEvent::DecodeFault => {
                    &&& final(self).spec_terminated()
                    &&& final(table)@ == old(table)@
                    &&& r is PublishAndStop
                },
            },
    {
        match event {
            ReadEvent::Frame(id) => {
                let slot = table.take(id);
                match slot {
                    Some(s) => ReadAction::Deliver(s),
                    None => {
                        proof {
                            assert(old(table)@.remove(id) =~= old(table)@);
                        }
                        ReadAction::Publish
                    },
                }
            },
            ReadEvent::DecodeFault => {
                self.terminated = true;
                ReadAction::PublishAndStop
            },
        }
    }
}

} // verus!
