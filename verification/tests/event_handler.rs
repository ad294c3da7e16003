use logid::event_handler::{
    control_log_ids, handler_start_logging, handler_stop_logging, is_start_logging,
    is_stop_logging, listener_step, shutdown_handler, start_logging, stop_logging,
    ListenerStep, LogEventHandlerError,
};
use logid::log_id::{LogId, LogLevel};

fn quiet(capturing: bool) -> ListenerStep {
    ListenerStep { deliver: false, capturing, clear_start: false, clear_stop: false, shutdown: false }
}

#[test]
fn control_ids_are_info_ids_of_their_modules() {
    assert_eq!(start_logging().get_module_path(), "logid_core::log_id");
    assert_eq!(start_logging().get_identifier(), "START_LOGGING");
    assert_eq!(stop_logging().get_identifier(), "STOP_LOGGING");
    assert_eq!(handler_start_logging().get_module_path(), "logid::event_handler");
    assert_eq!(handler_start_logging().get_identifier(), "HANDLER_START_LOGGING");
    assert_eq!(handler_stop_logging().get_identifier(), "HANDLER_STOP_LOGGING");
    assert_eq!(shutdown_handler().get_identifier(), "SHUTDOWN_HANDLER");
    assert_eq!(shutdown_handler().get_log_level(), LogLevel::Info);
    let ids = control_log_ids();
    assert_eq!(
        ids,
        vec![
            start_logging(),
            stop_logging(),
            handler_start_logging(),
            handler_stop_logging(),
            shutdown_handler()
        ]
    );
    assert!(is_start_logging(&start_logging()));
    assert!(!is_start_logging(&stop_logging()));
    assert!(is_stop_logging(&stop_logging()));
}

#[test]
fn ordinary_event_delivered_while_capturing() {
    let id = LogId::new("my_crate", "my_id", LogLevel::Error);
    assert_eq!(
        listener_step(true, true, true, true, &id),
        ListenerStep { deliver: true, ..quiet(true) }
    );
    assert_eq!(listener_step(false, true, true, false, &id), quiet(false));
}

#[test]
fn control_events_never_delivered() {
    for id in control_log_ids() {
        for flags in 0..16u8 {
            let step = listener_step(
                flags & 1 != 0,
                flags & 2 != 0,
                flags & 4 != 0,
                flags & 8 != 0,
                &id,
            );
            assert!(!step.deliver);
        }
    }
}

#[test]
fn global_stop_and_start() {
    assert_eq!(listener_step(true, false, false, false, &stop_logging()), quiet(false));
    assert_eq!(listener_step(false, false, false, false, &start_logging()), quiet(true));
    assert_eq!(listener_step(false, false, false, false, &stop_logging()), quiet(false));
}

#[test]
fn handler_requests_take_effect_with_their_event() {
    assert_eq!(
        listener_step(true, false, true, false, &handler_stop_logging()),
        ListenerStep { clear_stop: true, ..quiet(false) }
    );
    assert_eq!(listener_step(true, false, false, false, &handler_stop_logging()), quiet(true));
    assert_eq!(
        listener_step(false, true, false, false, &handler_start_logging()),
        ListenerStep { clear_start: true, ..quiet(true) }
    );
    assert_eq!(listener_step(false, false, false, false, &handler_start_logging()), quiet(false));
    assert_eq!(
        listener_step(true, false, false, true, &shutdown_handler()),
        ListenerStep { shutdown: true, ..quiet(true) }
    );
    assert_eq!(
        listener_step(false, false, false, true, &shutdown_handler()),
        ListenerStep { shutdown: true, ..quiet(false) }
    );
    assert_eq!(listener_step(true, false, false, false, &shutdown_handler()), quiet(true));
}

#[test]
fn handler_error_text() {
    assert_eq!(
        LogEventHandlerError::CreatingSubscription.to_string(),
        "Could not create LOGGER subscription for the LogEventHandler."
    );
}

#[test]
fn run_without_requests_delivers_while_capturing() {
    let a = LogId::new("my_crate", "a", LogLevel::Info);
    let b = LogId::new("my_crate", "b", LogLevel::Warn);
    let events = vec![
        a,
        start_logging(),
        stop_logging(),
        b,
        handler_start_logging(),
        start_logging(),
        b,
        shutdown_handler(),
        a,
    ];
    let mut capturing = true;
    let mut delivered = Vec::new();
    for id in &events {
        let step = listener_step(capturing, false, false, false, id);
        assert!(!step.shutdown && !step.clear_start && !step.clear_stop);
        if step.deliver {
            delivered.push(*id);
        }
        capturing = step.capturing;
    }
    assert_eq!(delivered, vec![a, b, a]);
    assert!(capturing);
}
