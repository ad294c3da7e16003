//! Events set for a [`LogId`], and the crate they belong to.
pub mod origin;

use crate::log_id::{LogId, LogIdView};
use origin::{Origin, OriginView};
use vstd::prelude::*;

verus! {

/// The entry of an event: its log-id, main message and origin.
#[derive(Default, Debug, Clone)]
pub struct EventEntry {
    pub(crate) id: LogId,
    pub(crate) msg: String,
    pub(crate) origin: Origin,
}

/// The mathematical model of an [`EventEntry`].
#[verifier::ext_equal]
pub struct EventEntryView {
    pub id: LogIdView,
    pub msg: Seq<char>,
    pub origin: OriginView,
}

impl View for EventEntry {
    type V = EventEntryView;

    closed spec fn view(&self) -> EventEntryView {
        EventEntryView { id: self.id@, msg: self.msg@, origin: self.origin@ }
    }
}

impl EventEntry {
    /// The entry of an event with log-id `id` and main message `msg`, set at line `line_nr`
    /// of file `filename` in module `module`.
    pub fn new(id: LogId, msg: &str, filename: &str, line_nr: u32, module: &str) -> (r: Self)
        ensures
            r@ == (EventEntryView {
                id: id@,
                msg: msg@,
                origin: OriginView { filename: filename@, line_nr, module: module@ },
            }),
    {
        EventEntry { id, msg: msg.to_owned(), origin: Origin::new(filename, line_nr, module) }
    }

    /// The log-id of this entry.
    pub fn get_id(&self) -> (r: LogId)
        ensures
            r@ == self@.id,
    {
        self.id
    }

    /// The main message of this entry.
    pub fn get_msg(&self) -> (r: &str)
        ensures
            r@ == self@.msg,
    {
        self.msg.as_str()
    }

    /// The code position this entry was set at.
    pub fn get_origin(&self) -> (r: &Origin)
        ensures
            r@ == self@.origin,
    {
        &self.origin
    }
}

/// An event that is set but not yet finalized.
#[derive(Debug, Clone)]
pub struct IntermediaryEvent {
    pub(crate) entry: EventEntry,
    pub(crate) crate_name: &'static str,
}

/// The mathematical model of an event: its crate and its entry.
#[verifier::ext_equal]
pub struct EventView {
    pub crate_name: Seq<char>,
    pub entry: EventEntryView,
}

impl View for IntermediaryEvent {
    type V = EventView;

    closed spec fn view(&self) -> EventView {
        EventView { crate_name: self.crate_name@, entry: self.entry@ }
    }
}

impl IntermediaryEvent {
    /// The entry of this event.
    pub fn get_entry(&self) -> (r: &EventEntry)
        ensures
            r@ == self@.entry,
    {
        &self.entry
    }

    /// The finalized event, with the same crate and entry.
    pub fn finalize(self) -> (r: Event)
        ensures
            r@ == self@,
    {
        Event { crate_name: self.crate_name, entry: self.entry }
    }
}

/// Trait to use [`LogId`] for tracing.
pub trait EventFns: Sized + View<V = LogIdView> {
    /// Set an event for a [`LogId`] in the crate `crate_name`.
    ///
    /// # Arguments
    ///
    /// * `crate_name` ... Name of the crate the event belongs to
    /// * `msg` ... Main message that is set for this log-id (should be a user-centered event description)
    /// * `filename` ... Name of the source file where the event is set
    /// * `line_nr` ... Line number where the event is set
    /// * `module` ... Module path where the event is set
    fn set_event(
        self,
        crate_name: &'static str,
        msg: &str,
        filename: &str,
        line_nr: u32,
        module: &str,
    ) -> (r: IntermediaryEvent)
        ensures
            r@ == (EventView {
                crate_name: crate_name@,
                entry: EventEntryView {
                    id: self@,
                    msg: msg@,
                    origin: OriginView { filename: filename@, line_nr, module: module@ },
                },
            }),
    ;
}

impl EventFns for LogId {
    fn set_event(
        self,
        crate_name: &'static str,
        msg: &str,
        filename: &str,
        line_nr: u32,
        module: &str,
    ) -> (r: IntermediaryEvent) {
        IntermediaryEvent {
            entry: EventEntry::new(self, msg, filename, line_nr, module),
            crate_name,
        }
    }
}

/// A finalized event.
#[derive(Default, Debug, Clone)]
pub struct Event {
    pub(crate) crate_name: &'static str,
    pub(crate) entry: EventEntry,
}

impl View for Event {
    type V = EventView;

    closed spec fn view(&self) -> EventView {
        EventView { crate_name: self.crate_name@, entry: self.entry@ }
    }
}

impl Event {
    /// Returns the [`LogId`] of this log-id event
    pub fn get_id(&self) -> (r: LogId)
        ensures
            r@ == self@.entry.id,
    {
        self.entry.id
    }

    /// Returns the name of the associated crate of this log-id event
    pub fn get_crate_name(&self) -> (r: &'static str)
        ensures
            r@ == self@.crate_name,
    {
        self.crate_name
    }

    /// Returns the [`EventEntry`] of this log-id event
    pub fn get_entry(&self) -> (r: &EventEntry)
        ensures
            r@ == self@.entry,
    {
        &self.entry
    }
}

} // verus!
