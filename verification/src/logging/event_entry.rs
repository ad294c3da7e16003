//! The entry a log event stores: its log-id, message, origin and addons.
//!
//! Entries hold hints and notes, diagnostics and payloads besides infos, debugs, traces and
//! related events; messages formatted by a function are not part of this library.
use super::msg::LogMsg;
use crate::event::origin::{Origin, OriginView};
use crate::log_id::{LogId, LogIdView, LogLevel};
use vstd::prelude::*;

verus! {

/// A diagnostic in the sense of the language server protocol, carried as it is.
#[verifier::external_type_specification]
#[verifier::external_body]
pub struct ExDiagnostic(lsp_types::Diagnostic);

/// A JSON value, carried as it is.
#[verifier::external_type_specification]
#[verifier::external_body]
pub struct ExJsonValue(serde_json::Value);

/// `Clone::clone` of `lsp_types::Diagnostic` (derived in that crate): the copy is carried
/// on as it is; nothing is claimed of it.
pub assume_specification[ <lsp_types::Diagnostic as Clone>::clone ](d: &lsp_types::Diagnostic) -> lsp_types::Diagnostic;

/// `Clone::clone` of `serde_json::Value` (derived in that crate): the copy is carried on as
/// it is; nothing is claimed of it.
pub assume_specification[ <serde_json::Value as Clone>::clone ](v: &serde_json::Value) -> serde_json::Value;

/// `id` is a random entry id: a version 4 UUID of the RFC 4122 variant, whose version digit is
/// `4` and whose variant bits are `10`.
pub open spec fn is_random_entry_id(id: u128) -> bool {
    id & 0xF000_C000_0000_0000_0000u128 == 0x4000_8000_0000_0000_0000u128
}

/// A fresh random entry id.
///
/// Calls `Uuid::new_v4` of `uuid` (as `evident` re-exports it) and reads the result as a
/// big-endian `u128`. The value is random; the contract claims only the version and variant
/// bits that `new_v4` sets on every result. `new_v4` panics where the system's source of
/// randomness fails, which no requirement can rule out.
#[verifier::external_body]
fn new_entry_id() -> (r: u128)
    ensures
        is_random_entry_id(r),
{
    evident::uuid::Uuid::new_v4().as_u128()
}

/// A log event that was finalized: its log-id and the unique id of its entry.
#[derive(Debug, Clone, Copy, PartialEq, Eq, Hash)]
pub struct FinalizedEvent {
    pub event_id: LogId,
    pub entry_id: u128,
}

/// [`AddonKind`] defines the information kind to be added to a [`LogEventEntry`].
#[derive(Debug, Clone, PartialEq)]
pub enum AddonKind {
    Info(String),
    Debug(String),
    Trace(String),
    Related(FinalizedEvent),
    Hint(String),
    Note(String),
    Diagnostic(lsp_types::Diagnostic),
    Payload(serde_json::Value),
}

/// The model of each string of `v`.
pub open spec fn strings_view(v: Seq<String>) -> Seq<Seq<char>> {
    v.map_values(|s: String| s@)
}

/// The log-id and entry id of each related event of `v`.
pub open spec fn related_view(v: Seq<FinalizedEvent>) -> Seq<(LogIdView, u128)> {
    v.map_values(|e: FinalizedEvent| (e.event_id@, e.entry_id))
}

/// The mathematical model of a [`LogEventEntry`].
#[verifier::ext_equal]
pub struct LogEventEntryView {
    pub event_id: LogIdView,
    pub entry_id: u128,
    pub msg: Option<Seq<char>>,
    pub infos: Seq<Seq<char>>,
    pub debugs: Seq<Seq<char>>,
    pub traces: Seq<Seq<char>>,
    pub related: Seq<(LogIdView, u128)>,
    pub origin: OriginView,
    pub hints: Seq<Seq<char>>,
    pub notes: Seq<Seq<char>>,
    pub diagnostics: Seq<lsp_types::Diagnostic>,
    pub payloads: Seq<serde_json::Value>,
}

/// The entry of a log event.
#[derive(Default, Debug, Clone)]
pub struct LogEventEntry {
    /// The event id of this entry
    pub(crate) event_id: LogId,
    /// The unique id of this entry
    pub(crate) entry_id: u128,
    /// The main message set when creating the log-id entry
    pub(crate) msg: Option<LogMsg>,
    /// List of additional informations for this log-id entry
    pub(crate) infos: Vec<String>,
    /// List of additional debug informations for this log-id entry
    pub(crate) debugs: Vec<String>,
    /// List of additional trace information for this log-id entry
    pub(crate) traces: Vec<String>,
    /// List of related log-id event entries
    pub(crate) related: Vec<FinalizedEvent>,
    /// Code position where the log-id entry was created
    pub(crate) origin: Origin,
    /// List of hints for this log-id entry
    pub(crate) hints: Vec<String>,
    /// List of notes for this log-id entry
    pub(crate) notes: Vec<String>,
    /// List of diagnostics for this log-id entry
    pub(crate) diagnostics: Vec<lsp_types::Diagnostic>,
    /// List of payloads for this log-id entry
    pub(crate) payloads: Vec<serde_json::Value>,
}

/// The model of an optional message.
pub open spec fn msg_view(m: Option<LogMsg>) -> Option<Seq<char>> {
    match m {
        Some(m) => Some(m@),
        None => None,
    }
}

impl View for LogEventEntry {
    type V = LogEventEntryView;

    closed spec fn view(&self) -> LogEventEntryView {
        LogEventEntryView {
            event_id: self.event_id@,
            entry_id: self.entry_id,
            msg: msg_view(self.msg),
            infos: strings_view(self.infos@),
            debugs: strings_view(self.debugs@),
            traces: strings_view(self.traces@),
            related: related_view(self.related@),
            origin: self.origin@,
            hints: strings_view(self.hints@),
            notes: strings_view(self.notes@),
            diagnostics: self.diagnostics@,
            payloads: self.payloads@,
        }
    }
}

/// The entry `e` with the addon `kind` appended to the list of its kind.
pub open spec fn with_addon(e: LogEventEntryView, kind: AddonKind) -> LogEventEntryView {
    match kind {
        AddonKind::Info(m) => LogEventEntryView { infos: e.infos.push(m@), ..e },
        AddonKind::Debug(m) => LogEventEntryView { debugs: e.debugs.push(m@), ..e },
        AddonKind::Trace(m) => LogEventEntryView { traces: e.traces.push(m@), ..e },
        AddonKind::Related(f) => LogEventEntryView {
            related: e.related.push((f.event_id@, f.entry_id)),
            ..e
        },
        AddonKind::Hint(m) => LogEventEntryView { hints: e.hints.push(m@), ..e },
        AddonKind::Note(m) => LogEventEntryView { notes: e.notes.push(m@), ..e },
        AddonKind::Diagnostic(d) => LogEventEntryView { diagnostics: e.diagnostics.push(d), ..e },
        AddonKind::Payload(p) => LogEventEntryView { payloads: e.payloads.push(p), ..e },
    }
}

impl LogEventEntry {
    /// The model of a new entry (see [`LogEventEntry::new`]).
    pub open spec fn new_spec(event_id: LogId, msg: Option<LogMsg>, origin: Origin, entry_id: u128) -> LogEventEntryView {
        LogEventEntryView {
            event_id: event_id@,
            entry_id,
            msg: msg_view(msg),
            infos: Seq::empty(),
            debugs: Seq::empty(),
            traces: Seq::empty(),
            related: Seq::empty(),
            origin: origin@,
            hints: Seq::empty(),
            notes: Seq::empty(),
            diagnostics: Seq::empty(),
            payloads: Seq::empty(),
        }
    }

    /// An entry with the default log-id, no message, the default origin and entry id `0`.
    pub fn empty() -> (r: Self)
        ensures
            r@ == (LogEventEntryView {
                event_id: LogIdView { module: Seq::empty(), identifier: Seq::empty(), level: LogLevel::Debug },
                entry_id: 0,
                msg: None,
                infos: Seq::empty(),
                debugs: Seq::empty(),
                traces: Seq::empty(),
                related: Seq::empty(),
                origin: OriginView { filename: Seq::empty(), line_nr: 0, module: Seq::empty() },
                hints: Seq::empty(),
                notes: Seq::empty(),
                diagnostics: Seq::empty(),
                payloads: Seq::empty(),
            }),
    {
        let r = LogEventEntry::with_entry_id(LogId::default(), None, Origin::default_origin(), 0);
        proof {
            assert(r@.event_id =~= (LogIdView { module: Seq::empty(), identifier: Seq::empty(), level: LogLevel::Debug }));
        }
        r
    }

    /// A new entry for an event with log-id `event_id`, optional main message `msg`, set at
    /// `origin`, with a fresh random entry id (see [`is_random_entry_id`]). All addon lists are
    /// empty.
    pub fn new(event_id: LogId, msg: Option<LogMsg>, origin: Origin) -> (r: Self)
        ensures
            r@ == LogEventEntry::new_spec(event_id, msg, origin, r@.entry_id),
            is_random_entry_id(r@.entry_id),
    {
        let entry_id = new_entry_id();
        LogEventEntry::with_entry_id(event_id, msg, origin, entry_id)
    }

    /// A new entry for an event with log-id `event_id`, optional main message `msg`, set at
    /// `origin`; `entry_id` is the unique id of the entry. All addon lists are empty.
    pub fn with_entry_id(event_id: LogId, msg: Option<LogMsg>, origin: Origin, entry_id: u128) -> (r: Self)
        ensures
            r@ == LogEventEntry::new_spec(event_id, msg, origin, entry_id),
    {
        let r = LogEventEntry {
            event_id,
            entry_id,
            msg,
            infos: Vec::new(),
            debugs: Vec::new(),
            traces: Vec::new(),
            related: Vec::new(),
            origin,
            hints: Vec::new(),
            notes: Vec::new(),
            diagnostics: Vec::new(),
            payloads: Vec::new(),
        };
        proof {
            assert(strings_view(r.infos@) =~= Seq::empty());
            assert(strings_view(r.debugs@) =~= Seq::empty());
            assert(strings_view(r.traces@) =~= Seq::empty());
            assert(strings_view(r.hints@) =~= Seq::empty());
            assert(strings_view(r.notes@) =~= Seq::empty());
            assert(related_view(r.related@) =~= Seq::empty());
            assert(r.diagnostics@ =~= Seq::empty());
            assert(r.payloads@ =~= Seq::empty());
        }
        r
    }

    /// Appends the addon `kind` to the list of its kind.
    pub fn push_addon(&mut self, kind: AddonKind)
        ensures
            final(self)@ == with_addon(old(self)@, kind),
    {
        let ghost k = kind;
        match kind {
            AddonKind::Info(msg) => {
                let ghost before = self.infos@;
                self.infos.push(msg);
                assert(strings_view(self.infos@) =~= strings_view(before).push(self.infos@.last()@));
            },
            AddonKind::Debug(msg) => {
                let ghost before = self.debugs@;
                self.debugs.push(msg);
                assert(strings_view(self.debugs@) =~= strings_view(before).push(self.debugs@.last()@));
            },
            AddonKind::Trace(msg) => {
                let ghost before = self.traces@;
                self.traces.push(msg);
                assert(strings_view(self.traces@) =~= strings_view(before).push(self.traces@.last()@));
            },
            AddonKind::Related(finalized_event) => {
                let ghost before = self.related@;
                self.related.push(finalized_event);
                assert(related_view(self.related@) =~= related_view(before).push(
                    (finalized_event.event_id@, finalized_event.entry_id),
                ));
            },
            AddonKind::Hint(msg) => {
                let ghost before = self.hints@;
                self.hints.push(msg);
                assert(strings_view(self.hints@) =~= strings_view(before).push(self.hints@.last()@));
            },
            AddonKind::Note(msg) => {
                let ghost before = self.notes@;
                self.notes.push(msg);
                assert(strings_view(self.notes@) =~= strings_view(before).push(self.notes@.last()@));
            },
            AddonKind::Diagnostic(diag) => {
                self.diagnostics.push(diag);
            },
            AddonKind::Payload(payload) => {
                self.payloads.push(payload);
            },
        }
    }

    /// The log-id of this entry.
    pub fn get_event_id(&self) -> (r: LogId)
        ensures
            r@ == self@.event_id,
    {
        self.event_id
    }

    /// The log-id of this entry, taking the entry.
    pub fn into_event_id(self) -> (r: LogId)
        ensures
            r@ == self@.event_id,
    {
        self.event_id
    }

    /// The unique id of this entry.
    pub fn get_entry_id(&self) -> (r: u128)
        ensures
            r == self@.entry_id,
    {
        self.entry_id
    }

    /// The main message of this entry.
    pub fn get_msg(&self) -> (r: Option<&LogMsg>)
        ensures
            match r {
                Some(m) => self@.msg == Some(m@),
                None => self@.msg is None,
            },
    {
        match &self.msg {
            Some(m) => Some(m),
            None => None,
        }
    }

    /// Get the level of the log-id of this entry
    pub fn get_level(&self) -> (r: LogLevel)
        ensures
            r == self@.event_id.level,
    {
        self.event_id.get_log_level()
    }

    /// Get the code position where the log-id entry was created
    pub fn get_origin(&self) -> (r: &Origin)
        ensures
            r@ == self@.origin,
    {
        &self.origin
    }

    /// Get the list of additional informations for this log-id entry
    pub fn get_infos(&self) -> (r: &Vec<String>)
        ensures
            strings_view(r@) == self@.infos,
    {
        &self.infos
    }

    /// Get the list of additional debug informations for this log-id entry
    pub fn get_debugs(&self) -> (r: &Vec<String>)
        ensures
            strings_view(r@) == self@.debugs,
    {
        &self.debugs
    }

    /// Get the list of additional trace information for this log-id entry
    pub fn get_traces(&self) -> (r: &Vec<String>)
        ensures
            strings_view(r@) == self@.traces,
    {
        &self.traces
    }

    /// Get the list of related log-id event entries
    pub fn get_related(&self) -> (r: &Vec<FinalizedEvent>)
        ensures
            related_view(r@) == self@.related,
    {
        &self.related
    }

    /// Get the list of hints for this log-id entry
    pub fn get_hints(&self) -> (r: &Vec<String>)
        ensures
            strings_view(r@) == self@.hints,
    {
        &self.hints
    }

    /// Get the list of notes for this log-id entry
    pub fn get_notes(&self) -> (r: &Vec<String>)
        ensures
            strings_view(r@) == self@.notes,
    {
        &self.notes
    }

    /// Get the list of diagnostics for this log-id entry
    pub fn get_diagnostics(&self) -> (r: &Vec<lsp_types::Diagnostic>)
        ensures
            r@ == self@.diagnostics,
    {
        &self.diagnostics
    }

    /// Get the list of payloads for this log-id entry
    pub fn get_payloads(&self) -> (r: &Vec<serde_json::Value>)
        ensures
            r@ == self@.payloads,
    {
        &self.payloads
    }
}

} // verus!
