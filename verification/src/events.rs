//! Event stream domain types.

use vstd::prelude::*;

verus! {

/// Event API ID.
#[derive(Debug)]
pub struct EventId(pub String);

impl View for EventId {
    type V = Seq<char>;

    open spec fn view(&self) -> Seq<char> {
        self.0@
    }
}

impl Clone for EventId {
    fn clone(&self) -> (r: Self)
        ensures
            r == *self,
    {
        EventId(self.0.clone())
    }
}

/// One entry of the account's event stream.
#[derive(Debug)]
pub struct Event {
    /// This event's ID; polling continues from here.
    pub event_id: EventId,
    /// Whether more events are immediately available.
    pub more: crate::message::Boolean,
}

} // verus!
