//! A log event that is set but not yet finalized, and its addons.
use super::event_entry::{AddonKind, FinalizedEvent, LogEventEntry, LogEventEntryView, is_random_entry_id, with_addon};
use super::filter::log_filter::{LogFilter, filter_allows_addon};
use super::msg::LogMsg;
use crate::event::origin::Origin;
use crate::log_id::LogId;
use vstd::prelude::*;

verus! {

/// The entry `e` after the addon `kind` was offered to it: added, unless the logger's filter
/// `filter` is set and does not allow it.
pub open spec fn entry_with_addon(filter: Option<&LogFilter>, e: LogEventEntryView, kind: AddonKind) -> LogEventEntryView {
    match filter {
        Some(f) => if filter_allows_addon(f@, e.event_id, e.origin.module, kind) {
            with_addon(e, kind)
        } else {
            e
        },
        None => with_addon(e, kind),
    }
}

/// A log event that is set but not yet finalized.
#[derive(Default, Debug, Clone)]
pub struct IntermediaryLogEvent {
    /// Entry storing all event information.
    pub(crate) entry: LogEventEntry,
}

impl View for IntermediaryLogEvent {
    type V = LogEventEntryView;

    closed spec fn view(&self) -> LogEventEntryView {
        self.entry@
    }
}

impl IntermediaryLogEvent {
    /// A new event with log-id `event_id`, optional main message `msg`, set at `origin`, whose
    /// entry gets a fresh random entry id.
    pub fn new(event_id: LogId, msg: Option<LogMsg>, origin: Origin) -> (r: Self)
        ensures
            r@ == LogEventEntry::new_spec(event_id, msg, origin, r@.entry_id),
            is_random_entry_id(r@.entry_id),
    {
        IntermediaryLogEvent { entry: LogEventEntry::new(event_id, msg, origin) }
    }

    /// A new event with log-id `event_id`, optional main message `msg`, set at `origin`;
    /// `entry_id` is the unique id of its entry.
    pub fn with_entry_id(event_id: LogId, msg: Option<LogMsg>, origin: Origin, entry_id: u128) -> (r: Self)
        ensures
            r@ == LogEventEntry::new_spec(event_id, msg, origin, entry_id),
    {
        IntermediaryLogEvent { entry: LogEventEntry::with_entry_id(event_id, msg, origin, entry_id) }
    }

    /// Returns the [`LogId`] of this log-id event
    pub fn get_event_id(&self) -> (r: LogId)
        ensures
            r@ == self@.event_id,
    {
        self.entry.get_event_id()
    }

    /// Returns the entry of this log-id event
    pub fn get_entry(&self) -> (r: &LogEventEntry)
        ensures
            r@ == self@,
    {
        &self.entry
    }

    /// Takes the entry out of this event, leaving an empty one.
    pub fn take_entry(&mut self) -> (r: LogEventEntry)
        ensures
            r@ == old(self)@,
    {
        let mut entry = LogEventEntry::empty();
        std::mem::swap(&mut entry, &mut self.entry);
        entry
    }

    /// Adds the addon `kind` to this event, unless the logger's filter `filter` is set and
    /// does not allow it.
    pub fn add_addon(self, kind: AddonKind, filter: Option<&LogFilter>) -> (r: Self)
        ensures
            r@ == entry_with_addon(filter, self@, kind),
    {
        let mut event = self;
        if let Some(filter) = filter {
            if !filter.allow_addon(event.get_event_id(), event.entry.get_origin(), &kind) {
                return event;
            }
        }
        event.entry.push_addon(kind);
        event
    }

    /// The finalized event: the log-id and the unique id of its entry.
    pub fn finalize(&self) -> (r: FinalizedEvent)
        ensures
            r.event_id@ == self@.event_id,
            r.entry_id == self@.entry_id,
    {
        FinalizedEvent { event_id: self.entry.get_event_id(), entry_id: self.entry.get_entry_id() }
    }
}

} // verus!
