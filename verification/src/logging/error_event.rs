//! An error together with the log event set for it.
use super::event_entry::{AddonKind, LogEventEntry, LogEventEntryView, is_random_entry_id, with_addon};
use super::filter::log_filter::LogFilter;
use super::intermediary_event::{IntermediaryLogEvent, entry_with_addon};
use super::msg::LogMsg;
use crate::event::origin::Origin;
use crate::log_id::LogId;
use vstd::prelude::*;

verus! {

/// An error and the log event set for it, to which addons may be added before the error is
/// returned.
#[derive(Default, Clone)]
pub struct ErrLogEvent<E> {
    pub(crate) error: E,
    pub(crate) interm_event: IntermediaryLogEvent,
}

impl<E> ErrLogEvent<E> {
    /// The error.
    pub closed spec fn err(&self) -> E {
        self.error
    }

    /// The entry of the event set for the error.
    pub closed spec fn entry(&self) -> LogEventEntryView {
        self.interm_event@
    }

    /// The error `error` with a new event for its log-id `event_id`, without a message, set at
    /// `origin`.
    pub fn new(error: E, event_id: LogId, origin: Origin) -> (r: Self)
        ensures
            r.err() == error,
            r.entry() == LogEventEntry::new_spec(event_id, None, origin, r.entry().entry_id),
            is_random_entry_id(r.entry().entry_id),
    {
        ErrLogEvent { error, interm_event: IntermediaryLogEvent::new(event_id, None, origin) }
    }

    /// The error `error` with a new event for its log-id `event_id`, with the main message
    /// `msg`, set at `origin`.
    pub fn new_with_msg(error: E, event_id: LogId, msg: &str, origin: Origin) -> (r: Self)
        ensures
            r.err() == error,
            r.entry() == (LogEventEntryView {
                msg: Some(msg@),
                ..LogEventEntry::new_spec(event_id, None, origin, r.entry().entry_id)
            }),
            is_random_entry_id(r.entry().entry_id),
    {
        let m = LogMsg::new(msg);
        let r = ErrLogEvent { error, interm_event: IntermediaryLogEvent::new(event_id, Some(m), origin) };
        assert(r.entry() =~= (LogEventEntryView {
            msg: Some(msg@),
            ..LogEventEntry::new_spec(event_id, None, origin, r.entry().entry_id)
        }));
        r
    }

    /// The error, and the event set for it, which is to be finalized.
    pub fn into_err(self) -> (r: (E, IntermediaryLogEvent))
        ensures
            r.0 == self.err(),
            r.1@ == self.entry(),
    {
        (self.error, self.interm_event)
    }

    /// Offers the addon `kind` to the event: it is added unless the logger's filter `filter`
    /// is set and does not allow it.
    pub fn add_addon(self, kind: AddonKind, filter: Option<&LogFilter>) -> (r: Self)
        ensures
            r.err() == self.err(),
            r.entry() == entry_with_addon(filter, self.entry(), kind),
    {
        ErrLogEvent { error: self.error, interm_event: self.interm_event.add_addon(kind, filter) }
    }

    /// Adds an info message to the event, where the filter allows it.
    pub fn add_info(self, msg: &str, filter: Option<&LogFilter>) -> (r: Self)
        ensures
            r.err() == self.err(),
            forall|s: String|
                s@ == msg@ ==> r.entry() == #[trigger] entry_with_addon(filter, self.entry(), AddonKind::Info(s)),
    {
        let ghost e = self.entry();
        let m = msg.to_owned();
        let r = self.add_addon(AddonKind::Info(m), filter);
        assert forall|s: String| s@ == msg@ implies r.entry() == #[trigger] entry_with_addon(filter, e, AddonKind::Info(s)) by {
            assert(with_addon(e, AddonKind::Info(s)) == with_addon(e, AddonKind::Info(m)));
        }
        r
    }

    /// Adds a debug message to the event, where the filter allows it.
    pub fn add_debug(self, msg: &str, filter: Option<&LogFilter>) -> (r: Self)
        ensures
            r.err() == self.err(),
            forall|s: String|
                s@ == msg@ ==> r.entry() == #[trigger] entry_with_addon(filter, self.entry(), AddonKind::Debug(s)),
    {
        let ghost e = self.entry();
        let m = msg.to_owned();
        let r = self.add_addon(AddonKind::Debug(m), filter);
        assert forall|s: String| s@ == msg@ implies r.entry() == #[trigger] entry_with_addon(filter, e, AddonKind::Debug(s)) by {
            assert(with_addon(e, AddonKind::Debug(s)) == with_addon(e, AddonKind::Debug(m)));
        }
        r
    }

    /// Adds a trace message to the event, where the filter allows it.
    pub fn add_trace(self, msg: &str, filter: Option<&LogFilter>) -> (r: Self)
        ensures
            r.err() == self.err(),
            forall|s: String|
                s@ == msg@ ==> r.entry() == #[trigger] entry_with_addon(filter, self.entry(), AddonKind::Trace(s)),
    {
        let ghost e = self.entry();
        let m = msg.to_owned();
        let r = self.add_addon(AddonKind::Trace(m), filter);
        assert forall|s: String| s@ == msg@ implies r.entry() == #[trigger] entry_with_addon(filter, e, AddonKind::Trace(s)) by {
            assert(with_addon(e, AddonKind::Trace(s)) == with_addon(e, AddonKind::Trace(m)));
        }
        r
    }

    /// Adds a diagnostic to the event, where the filter allows it.
    pub fn add_diagnostic(self, diagnostic: lsp_types::Diagnostic, filter: Option<&LogFilter>) -> (r: Self)
        ensures
            r.err() == self.err(),
            r.entry() == entry_with_addon(filter, self.entry(), AddonKind::Diagnostic(diagnostic)),
    {
        self.add_addon(AddonKind::Diagnostic(diagnostic), filter)
    }

    /// Adds a payload to the event, where the filter allows it.
    pub fn add_payload(self, payload: serde_json::Value, filter: Option<&LogFilter>) -> (r: Self)
        ensures
            r.err() == self.err(),
            r.entry() == entry_with_addon(filter, self.entry(), AddonKind::Payload(payload)),
    {
        self.add_addon(AddonKind::Payload(payload), filter)
    }
}

} // verus!
