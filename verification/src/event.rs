//! Events that the server relays from one participant to another.
use vstd::prelude::*;

use crate::json::Json;

verus! {

/// An event relayed by the server: who sent it, to whom, what it carries and
/// the id its sender gave it.
#[derive(Debug)]
pub struct ACIEvent {
    pub source: String,
    pub destination: String,
    data: Json,
    pub event_id: Json,
}

impl ACIEvent {
    /// Who sent the event.
    pub closed spec fn sender(self) -> String {
        self.source
    }

    /// To whom the event goes.
    pub closed spec fn receiver(self) -> String {
        self.destination
    }

    /// What the event carries.
    pub closed spec fn payload(self) -> Json {
        self.data
    }

    /// The id its sender gave the event.
    pub closed spec fn id(self) -> Json {
        self.event_id
    }

    /// Create an ACIEvent from raw values
    pub fn create(source: String, destination: String, data: Json, event_id: Json) -> (r: Self)
        ensures
            r.sender() == source,
            r.receiver() == destination,
            r.payload() == data,
            r.id() == event_id,
    {
        Self { source, destination, data, event_id }
    }

    /// Consume the event and extract the data
    pub fn consume(self) -> (r: Json)
        ensures
            r == self.payload(),
    {
        self.data
    }
}

} // verus!
