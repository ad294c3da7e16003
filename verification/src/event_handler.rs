//! The log-ids that control logging, and the decisions of the thread that hands captured
//! events to the handler functions of a log event handler.
use crate::log_id::{LogId, LogIdView, LogLevel};
use vstd::prelude::*;

verus! {

/// The model of the log-id `START_LOGGING`, set to notify the logger and listeners to start
/// logging.
pub open spec fn start_logging_view() -> LogIdView {
    LogIdView { module: "logid_core::log_id"@, identifier: "START_LOGGING"@, level: LogLevel::Info }
}

/// The model of the log-id `STOP_LOGGING`, set to notify the logger and listeners to stop
/// logging.
pub open spec fn stop_logging_view() -> LogIdView {
    LogIdView { module: "logid_core::log_id"@, identifier: "STOP_LOGGING"@, level: LogLevel::Info }
}

/// The model of the log-id a handler sets when it is asked to start logging.
pub open spec fn handler_start_view() -> LogIdView {
    LogIdView {
        module: "logid::event_handler"@,
        identifier: "HANDLER_START_LOGGING"@,
        level: LogLevel::Info,
    }
}

/// The model of the log-id a handler sets when it is asked to stop logging.
pub open spec fn handler_stop_view() -> LogIdView {
    LogIdView {
        module: "logid::event_handler"@,
        identifier: "HANDLER_STOP_LOGGING"@,
        level: LogLevel::Info,
    }
}

/// The model of the log-id a handler sets when it shuts down.
pub open spec fn shutdown_handler_view() -> LogIdView {
    LogIdView {
        module: "logid::event_handler"@,
        identifier: "SHUTDOWN_HANDLER"@,
        level: LogLevel::Info,
    }
}

/// `id` is one of the five log-ids that control logging.
pub open spec fn is_control_id(id: LogIdView) -> bool {
    ||| id == start_logging_view()
    ||| id == stop_logging_view()
    ||| id == handler_start_view()
    ||| id == handler_stop_view()
    ||| id == shutdown_handler_view()
}

/// Notify the logger and listeners to start logging.
///
/// The filter does not affect the capturing of this log-id: it is up to the handler to decide
/// whether to filter it or not.
pub fn start_logging() -> (r: LogId)
    ensures
        r@ == start_logging_view(),
{
    LogId::new("logid_core::log_id", "START_LOGGING", LogLevel::Info)
}

/// Notify the logger and listeners to stop logging.
///
/// The filter does not affect the capturing of this log-id: it is up to the handler to decide
/// whether to filter it or not.
pub fn stop_logging() -> (r: LogId)
    ensures
        r@ == stop_logging_view(),
{
    LogId::new("logid_core::log_id", "STOP_LOGGING", LogLevel::Info)
}

/// The log-id a handler sets when it is asked to start logging.
pub fn handler_start_logging() -> (r: LogId)
    ensures
        r@ == handler_start_view(),
{
    LogId::new("logid::event_handler", "HANDLER_START_LOGGING", LogLevel::Info)
}

/// The log-id a handler sets when it is asked to stop logging.
pub fn handler_stop_logging() -> (r: LogId)
    ensures
        r@ == handler_stop_view(),
{
    LogId::new("logid::event_handler", "HANDLER_STOP_LOGGING", LogLevel::Info)
}

/// The log-id a handler sets when it shuts down.
pub fn shutdown_handler() -> (r: LogId)
    ensures
        r@ == shutdown_handler_view(),
{
    LogId::new("logid::event_handler", "SHUTDOWN_HANDLER", LogLevel::Info)
}

/// `id` is `START_LOGGING` (a start of capturing in the logger).
pub fn is_start_logging(id: &LogId) -> (r: bool)
    ensures
        r == (id@ == start_logging_view()),
{
    *id == start_logging()
}

/// `id` is `STOP_LOGGING` (a stop of capturing in the logger).
pub fn is_stop_logging(id: &LogId) -> (r: bool)
    ensures
        r == (id@ == stop_logging_view()),
{
    *id == stop_logging()
}

/// The log-ids every handler subscribes to, so that it receives the control events:
/// `START_LOGGING`, `STOP_LOGGING`, `HANDLER_START_LOGGING`, `HANDLER_STOP_LOGGING` and
/// `SHUTDOWN_HANDLER`, in this order.
pub fn control_log_ids() -> (r: Vec<LogId>)
    ensures
        r@.len() == 5,
        r@[0]@ == start_logging_view(),
        r@[1]@ == stop_logging_view(),
        r@[2]@ == handler_start_view(),
        r@[3]@ == handler_stop_view(),
        r@[4]@ == shutdown_handler_view(),
{
    vec![
        start_logging(),
        stop_logging(),
        handler_start_logging(),
        handler_stop_logging(),
        shutdown_handler(),
    ]
}

/// What the listener of a handler does with one received event, and the state it leaves.
#[derive(Debug, Clone, Copy, PartialEq, Eq, Structural)]
pub struct ListenerStep {
    /// The event is handed to the handler functions.
    pub deliver: bool,
    /// The handler captures events after this one.
    pub capturing: bool,
    /// The handler's start request is consumed.
    pub clear_start: bool,
    /// The handler's stop request is consumed.
    pub clear_stop: bool,
    /// The listener ends.
    pub shutdown: bool,
}

/// A step that changes nothing but whether the handler captures.
pub open spec fn plain_step(deliver: bool, capturing: bool) -> ListenerStep {
    ListenerStep { deliver, capturing, clear_start: false, clear_stop: false, shutdown: false }
}

/// What the listener does with an event of log-id `id`, where `capturing` tells whether the
/// handler captures, and `start`, `stop` and `shutdown` whether the handler was asked to start,
/// to stop or to shut down.
///
/// Due to the channel buffer, the handler's flags may already be set while earlier events are
/// still to come: a request takes effect only with the control event that goes with it.
pub open spec fn listener_next(
    capturing: bool,
    start: bool,
    stop: bool,
    shutdown: bool,
    id: LogIdView,
) -> ListenerStep {
    if capturing {
        if id == stop_logging_view() {
            plain_step(false, false)
        } else if stop && id == handler_stop_view() {
            ListenerStep { clear_stop: true, ..plain_step(false, false) }
        } else if shutdown && id == shutdown_handler_view() {
            ListenerStep { shutdown: true, ..plain_step(false, true) }
        } else if id != handler_start_view() && id != handler_stop_view() && id
            != shutdown_handler_view() && id != start_logging_view() {
            plain_step(true, true)
        } else {
            plain_step(false, true)
        }
    } else {
        if id == start_logging_view() {
            plain_step(false, true)
        } else if start && id == handler_start_view() {
            ListenerStep { clear_start: true, ..plain_step(false, true) }
        } else if shutdown && id == shutdown_handler_view() {
            ListenerStep { shutdown: true, ..plain_step(false, false) }
        } else {
            plain_step(false, false)
        }
    }
}

/// Decides what the listener of a handler does with an event of log-id `id` (see
/// [`listener_next`]).
pub fn listener_step(capturing: bool, start: bool, stop: bool, shutdown: bool, id: &LogId) -> (r:
    ListenerStep)
    ensures
        r == listener_next(capturing, start, stop, shutdown, id@),
{
    let quiet = ListenerStep {
        deliver: false,
        capturing,
        clear_start: false,
        clear_stop: false,
        shutdown: false,
    };
    if capturing {
        if *id == stop_logging() {
            ListenerStep { capturing: false, ..quiet }
        } else if stop && *id == handler_stop_logging() {
            ListenerStep { capturing: false, clear_stop: true, ..quiet }
        } else if shutdown && *id == shutdown_handler() {
            ListenerStep { shutdown: true, ..quiet }
        } else if *id != handler_start_logging() && *id != handler_stop_logging() && *id
            != shutdown_handler() && *id != start_logging() {
            ListenerStep { deliver: true, ..quiet }
        } else {
            quiet
        }
    } else {
        if *id == start_logging() {
            ListenerStep { capturing: true, ..quiet }
        } else if start && *id == handler_start_logging() {
            ListenerStep { capturing: true, clear_start: true, ..quiet }
        } else if shutdown && *id == shutdown_handler() {
            ListenerStep { shutdown: true, ..quiet }
        } else {
            quiet
        }
    }
}

/// The five control log-ids differ from each other.
pub proof fn lemma_control_ids_distinct()
    ensures
        start_logging_view() != stop_logging_view(),
        start_logging_view() != handler_start_view(),
        start_logging_view() != handler_stop_view(),
        start_logging_view() != shutdown_handler_view(),
        stop_logging_view() != handler_start_view(),
        stop_logging_view() != handler_stop_view(),
        stop_logging_view() != shutdown_handler_view(),
        handler_start_view() != handler_stop_view(),
        handler_start_view() != shutdown_handler_view(),
        handler_stop_view() != shutdown_handler_view(),
{
    reveal_strlit("logid_core::log_id");
    reveal_strlit("logid::event_handler");
    reveal_strlit("START_LOGGING");
    reveal_strlit("STOP_LOGGING");
    reveal_strlit("HANDLER_START_LOGGING");
    reveal_strlit("HANDLER_STOP_LOGGING");
    reveal_strlit("SHUTDOWN_HANDLER");
    assert("logid_core::log_id"@ != "logid::event_handler"@) by {
        assert("logid_core::log_id"@.len() != "logid::event_handler"@.len());
    }
    assert("START_LOGGING"@[2] != "STOP_LOGGING"@[2]);
    assert("HANDLER_START_LOGGING"@[10] != "HANDLER_STOP_LOGGING"@[10]);
    assert("HANDLER_START_LOGGING"@[0] != "SHUTDOWN_HANDLER"@[0]);
    assert("HANDLER_STOP_LOGGING"@[0] != "SHUTDOWN_HANDLER"@[0]);
}

/// No control event is ever handed to the handler functions.
pub proof fn lemma_control_never_delivered(
    capturing: bool,
    start: bool,
    stop: bool,
    shutdown: bool,
    id: LogIdView,
)
    requires
        is_control_id(id),
    ensures
        !listener_next(capturing, start, stop, shutdown, id).deliver,
{
}

/// While a handler does not capture, no event is handed to its functions.
pub proof fn lemma_nothing_delivered_while_stopped(start: bool, stop: bool, shutdown: bool, id: LogIdView)
    ensures
        !listener_next(false, start, stop, shutdown, id).deliver,
{
}

/// While a handler captures, every event of another log-id than the control ones is handed
/// to its functions, and the listener's state stays as it is.
pub proof fn lemma_ordinary_event_delivered(start: bool, stop: bool, shutdown: bool, id: LogIdView)
    requires
        !is_control_id(id),
    ensures
        listener_next(true, start, stop, shutdown, id) == plain_step(true, true),
{
}

/// `STOP_LOGGING` stops every capturing handler, and `START_LOGGING` starts every handler that
/// does not capture.
pub proof fn lemma_global_start_stop(start: bool, stop: bool, shutdown: bool)
    ensures
        listener_next(true, start, stop, shutdown, stop_logging_view()) == plain_step(false, false),
        listener_next(false, start, stop, shutdown, start_logging_view()) == plain_step(false, true),
{
    lemma_control_ids_distinct();
}

/// A handler's own request takes effect with its control event: asked to stop, a capturing
/// handler stops on `HANDLER_STOP_LOGGING`; asked to start, a stopped handler starts on
/// `HANDLER_START_LOGGING`; asked to shut down, the listener ends on `SHUTDOWN_HANDLER`.
pub proof fn lemma_handler_requests(capturing: bool, start: bool, stop: bool, shutdown: bool)
    ensures
        stop ==> listener_next(true, start, stop, shutdown, handler_stop_view()) == (
        ListenerStep { clear_stop: true, ..plain_step(false, false) }),
        start ==> listener_next(false, start, stop, shutdown, handler_start_view()) == (
        ListenerStep { clear_start: true, ..plain_step(false, true) }),
        shutdown ==> listener_next(capturing, start, stop, shutdown, shutdown_handler_view()) == (
        ListenerStep { shutdown: true, ..plain_step(false, capturing) }),
{
    lemma_control_ids_distinct();
}

/// The listener ends only on `SHUTDOWN_HANDLER`, after the handler was asked to shut down, and
/// a request is consumed only by the control event that goes with it.
pub proof fn lemma_requests_consumed_only_by_their_event(
    capturing: bool,
    start: bool,
    stop: bool,
    shutdown: bool,
    id: LogIdView,
)
    ensures
        listener_next(capturing, start, stop, shutdown, id).shutdown ==> shutdown && id
            == shutdown_handler_view(),
        listener_next(capturing, start, stop, shutdown, id).clear_stop ==> stop && capturing && id
            == handler_stop_view(),
        listener_next(capturing, start, stop, shutdown, id).clear_start ==> start && !capturing
            && id == handler_start_view(),
{
}

/// The state of a handler's listener between events: whether the handler captures, which
/// requests are pending, and whether the listener has ended.
pub struct ListenerState {
    pub capturing: bool,
    pub start: bool,
    pub stop: bool,
    pub shutdown: bool,
    pub ended: bool,
}

/// The state after the listener in state `st` took the event of log-id `id`.
pub open spec fn state_after(st: ListenerState, id: LogIdView) -> ListenerState {
    let r = listener_next(st.capturing, st.start, st.stop, st.shutdown, id);
    ListenerState {
        capturing: r.capturing,
        start: st.start && !r.clear_start,
        stop: st.stop && !r.clear_stop,
        shutdown: st.shutdown,
        ended: r.shutdown,
    }
}

/// The listener's state after it received the events of log-ids `ids` in order, starting in
/// state `st`, with no request made meanwhile, and the log-ids of the events it handed to the
/// handler functions, in order. Events after the listener ended are not taken.
pub open spec fn run_listener(st: ListenerState, ids: Seq<LogIdView>) -> (ListenerState, Seq<LogIdView>)
    decreases ids.len(),
{
    if ids.len() == 0 {
        (st, Seq::empty())
    } else {
        let (p, d) = run_listener(st, ids.drop_last());
        if p.ended {
            (p, d)
        } else {
            let r = listener_next(p.capturing, p.start, p.stop, p.shutdown, ids.last());
            (state_after(p, ids.last()), if r.deliver {
                d.push(ids.last())
            } else {
                d
            })
        }
    }
}

/// Whether a handler captures after the events of log-ids `ids`, having started with
/// `capturing`, where only `START_LOGGING` and `STOP_LOGGING` change it.
pub open spec fn capturing_after(capturing: bool, ids: Seq<LogIdView>) -> bool
    decreases ids.len(),
{
    if ids.len() == 0 {
        capturing
    } else if ids.last() == stop_logging_view() {
        false
    } else if ids.last() == start_logging_view() {
        true
    } else {
        capturing_after(capturing, ids.drop_last())
    }
}

/// The log-ids of `ids` that are no control log-id and arrive while the handler captures.
pub open spec fn delivered_while_capturing(capturing: bool, ids: Seq<LogIdView>) -> Seq<LogIdView>
    decreases ids.len(),
{
    if ids.len() == 0 {
        Seq::empty()
    } else if capturing_after(capturing, ids.drop_last()) && !is_control_id(ids.last()) {
        delivered_while_capturing(capturing, ids.drop_last()).push(ids.last())
    } else {
        delivered_while_capturing(capturing, ids.drop_last())
    }
}

/// Over any run of events, the handler functions receive no control event.
pub proof fn lemma_run_delivers_no_control(st: ListenerState, ids: Seq<LogIdView>)
    ensures
        forall|i: int| 0 <= i < run_listener(st, ids).1.len() ==> !is_control_id(#[trigger] run_listener(st, ids).1[i]),
    decreases ids.len(),
{
    if ids.len() > 0 {
        lemma_run_delivers_no_control(st, ids.drop_last());
        let (p, d) = run_listener(st, ids.drop_last());
        if !p.ended {
            let r = listener_next(p.capturing, p.start, p.stop, p.shutdown, ids.last());
            if r.deliver {
                if is_control_id(ids.last()) {
                    lemma_control_never_delivered(p.capturing, p.start, p.stop, p.shutdown, ids.last());
                }
                assert forall|i: int| 0 <= i < d.push(ids.last()).len() implies !is_control_id(
                    #[trigger] d.push(ids.last())[i],
                ) by {
                    if i < d.len() {
                        assert(d.push(ids.last())[i] == d[i]);
                    }
                }
            }
        }
    }
}

/// With no handler request pending, a listener hands to the handler functions exactly the
/// events of other log-ids than the control ones that arrive while the handler captures, in
/// order; `STOP_LOGGING` stops and `START_LOGGING` starts the capturing, and the listener
/// does not end.
pub proof fn lemma_run_without_requests(capturing: bool, ids: Seq<LogIdView>)
    ensures
        run_listener(
            ListenerState { capturing, start: false, stop: false, shutdown: false, ended: false },
            ids,
        ) == (
        ListenerState {
            capturing: capturing_after(capturing, ids),
            start: false,
            stop: false,
            shutdown: false,
            ended: false,
        },
        delivered_while_capturing(capturing, ids)),
    decreases ids.len(),
{
    if ids.len() > 0 {
        lemma_run_without_requests(capturing, ids.drop_last());
        lemma_control_ids_distinct();
    }
}

/// The error of building a log event handler.
#[derive(Debug, Clone, Copy, PartialEq, Eq, Structural)]
pub enum LogEventHandlerError {
    /// The logger refused the handler's subscription.
    CreatingSubscription,
}

impl LogEventHandlerError {
    /// The text this error is shown as.
    pub fn to_string(&self) -> (r: String)
        ensures
            r@ == "Could not create LOGGER subscription for the LogEventHandler."@,
    {
        match self {
            LogEventHandlerError::CreatingSubscription => {
                "Could not create LOGGER subscription for the LogEventHandler.".to_owned()
            },
        }
    }
}

} // verus!
