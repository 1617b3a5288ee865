//! Event log interfaces.
//!
//! An event is recorded as a standard name, a version, an event name and a
//! payload. Formatting an event log for emission, and the emission itself,
//! belong to the host environment; this module holds the data shape and the
//! interfaces a contract's event types implement.

use vstd::prelude::*;

verus! {

/// An event that can be rendered and emitted in the standard event format.
pub trait Event {
    /// Converts the event into an event-formatted string.
    fn to_event_string(&self) -> String;

    /// Emits the event string to the host's log.
    fn emit(&self);
}

/// This type can be converted into an [`EventLog`] struct.
pub trait ToEventLog {
    /// Metadata associated with the event.
    type Data;

    /// Retrieves the event log before serialization.
    fn to_event_log(&self) -> EventLog<&Self::Data>;
}

/// Event log data: the envelope every emitted event is wrapped in.
#[derive(Debug)]
pub struct EventLog<T> {
    /// Name of the event standard.
    pub standard: String,
    /// Version of the standard.
    pub version: String,
    /// Name of the particular event.
    pub event: String,
    /// The event's payload.
    pub data: T,
}

impl<T> EventLog<T> {
    /// Converts the event log into one that borrows its payload.
    pub fn as_ref(&self) -> (r: EventLog<&T>)
        ensures
            r.standard == self.standard,
            r.version == self.version,
            r.event == self.event,
            r.data == &self.data,
    {
        EventLog {
            standard: self.standard.clone(),
            version: self.version.clone(),
            event: self.event.clone(),
            data: &self.data,
        }
    }
}

} // verus!
