//! Correlated request channel: command ids and response routing.
//!
//! Every command is sent with a locally unique, monotonically increasing id,
//! and the sender waits — under a caller-enforced deadline — for the frame
//! carrying the same id. Frames with other ids are ignored by the waiter,
//! and frames without an id are events that must be routed onward, never
//! consumed by the waiter.

use vstd::prelude::*;

use crate::frame::{CdpEvent, InboundFrame, ResponsePayload};

verus! {

/// Issues command ids, unique for the lifetime of one connection: ids are
/// handed out strictly increasing and never reused, so a late response can
/// never be mistaken for another command's.
pub struct CommandIdCounter {
    next_id: u64,
}

impl CommandIdCounter {
    /// The id the next call will return.
    pub closed spec fn spec_next(self) -> u64 {
        self.next_id
    }

    /// A fresh counter, starting at 1.
    pub fn new() -> (r: CommandIdCounter)
        ensures
            r.spec_next() == 1,
    {
        CommandIdCounter { next_id: 1 }
    }

    /// The id the next call to `get_unique_id` will return.
    pub fn peek_next(&self) -> (r: u64)
        ensures
            r == self.spec_next(),
    {
        self.next_id
    }

    /// Returns the next id and advances the counter; each id is returned at
    /// most once.
    pub fn get_unique_id(&mut self) -> (r: u64)
        requires
            old(self).spec_next() < u64::MAX,
        ensures
            r == old(self).spec_next(),
            final(self).spec_next() == old(self).spec_next() + 1,
    {
        let id = self.next_id;
        self.next_id = self.next_id + 1;
        id
    }
}

/// What a waiter does with one inbound frame.
pub enum Disposition {
    /// The awaited response arrived and carried a `result`.
    DeliverOk(ResponsePayload),
    /// The awaited response arrived but carried an `error` member.
    DeliverError(ResponsePayload),
    /// The frame is an event; hand it to the event listener, do not consume
    /// it as a response.
    RouteEvent(CdpEvent),
    /// A response to some other command, or unparseable text: skip it and
    /// keep waiting.
    Ignore,
}

/// How `route_frame` treats each frame: a frame is the awaited response if
/// and only if it carries a top-level id equal to `pending_id`.
pub open spec fn spec_route(pending_id: u64, frame: InboundFrame) -> Disposition {
    match frame {
        InboundFrame::Response { id, is_error, payload } => if id == pending_id {
            if is_error {
                Disposition::DeliverError(payload)
            } else {
                Disposition::DeliverOk(payload)
            }
        } else {
            Disposition::Ignore
        },
        InboundFrame::Event(ev) => Disposition::RouteEvent(ev),
        InboundFrame::Malformed => Disposition::Ignore,
    }
}

/// Classifies one inbound frame against the pending request id.
pub fn route_frame(pending_id: u64, frame: InboundFrame) -> (r: Disposition)
    ensures
        r == spec_route(pending_id, frame),
{
    match frame {
        InboundFrame::Response { id, is_error, payload } => {
            if id == pending_id {
                if is_error {
                    Disposition::DeliverError(payload)
                } else {
                    Disposition::DeliverOk(payload)
                }
            } else {
                Disposition::Ignore
            }
        },
        InboundFrame::Event(ev) => Disposition::RouteEvent(ev),
        InboundFrame::Malformed => Disposition::Ignore,
    }
}

} // verus!
