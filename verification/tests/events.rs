use logid::event::origin::Origin;
use logid::event::EventFns;
use logid::log_id::{LogId, LogLevel};
use logid::logging::error_event::ErrLogEvent;
use logid::logging::event_entry::{AddonKind, LogEventEntry};
use logid::logging::filter::{FilterConfig, LogFilter};
use logid::logging::intermediary_event::IntermediaryLogEvent;
use logid::logging::msg::LogMsg;
use logid::publisher::SubscriptionKey;

fn origin_here() -> Origin {
    Origin::new("tests/events.rs", 20, "events")
}

#[test]
fn random_entry_ids_are_version_four() {
    let id = LogId::new("events", "id", LogLevel::Info);
    let a = LogEventEntry::new(id, None, origin_here());
    let b = LogEventEntry::new(id, None, origin_here());
    for e in [&a, &b] {
        assert_eq!(e.get_entry_id() & 0xF000_C000_0000_0000_0000, 0x4000_8000_0000_0000_0000);
        assert_eq!(e.get_event_id(), id);
        assert!(e.get_msg().is_none());
        assert!(e.get_infos().is_empty());
    }
    assert_ne!(a.get_entry_id(), b.get_entry_id());
}

#[test]
fn addons_go_to_their_lists() {
    let id = LogId::new("events", "id", LogLevel::Error);
    let event = IntermediaryLogEvent::with_entry_id(id, Some(LogMsg::new("m")), origin_here(), 9)
        .add_addon(AddonKind::Info("i".to_string()), None)
        .add_addon(AddonKind::Debug("d".to_string()), None)
        .add_addon(AddonKind::Trace("t".to_string()), None)
        .add_addon(AddonKind::Note("n".to_string()), None);
    let entry = event.get_entry();
    assert_eq!(entry.get_infos(), &vec!["i".to_string()]);
    assert_eq!(entry.get_debugs(), &vec!["d".to_string()]);
    assert_eq!(entry.get_traces(), &vec!["t".to_string()]);
    assert_eq!(entry.get_notes(), &vec!["n".to_string()]);
    assert!(entry.get_hints().is_empty());
    assert_eq!(entry.get_level(), LogLevel::Error);
    let finalized = event.finalize();
    assert_eq!(finalized.entry_id, 9);
    assert_eq!(finalized.event_id, id);
}

#[test]
fn filter_decides_which_addons_stay() {
    let id = LogId::new("events", "id", LogLevel::Error);
    let filter = LogFilter::new("error(infos)");
    let event = IntermediaryLogEvent::with_entry_id(id, None, origin_here(), 1)
        .add_addon(AddonKind::Info("kept".to_string()), Some(&filter))
        .add_addon(AddonKind::Hint("dropped".to_string()), Some(&filter))
        .add_addon(AddonKind::Debug("dropped".to_string()), Some(&filter));
    assert_eq!(event.get_entry().get_infos(), &vec!["kept".to_string()]);
    assert!(event.get_entry().get_hints().is_empty());
    assert!(event.get_entry().get_debugs().is_empty());
    let warn = LogId::new("events", "warn", LogLevel::Warn);
    let event = IntermediaryLogEvent::with_entry_id(warn, None, origin_here(), 1)
        .add_addon(AddonKind::Info("general addon".to_string()), Some(&filter));
    assert_eq!(event.get_entry().get_infos(), &vec!["general addon".to_string()]);
    let no_addons = LogFilter::new("error");
    let event = IntermediaryLogEvent::with_entry_id(id, None, origin_here(), 1)
        .add_addon(AddonKind::Info("dropped".to_string()), Some(&no_addons));
    assert!(event.get_entry().get_infos().is_empty());
}

#[test]
fn take_entry_leaves_an_empty_one() {
    let id = LogId::new("events", "id", LogLevel::Info);
    let mut event = IntermediaryLogEvent::with_entry_id(id, None, origin_here(), 5);
    let entry = event.take_entry();
    assert_eq!(entry.get_entry_id(), 5);
    assert_eq!(event.get_entry().get_entry_id(), 0);
    assert_eq!(event.get_event_id(), LogId::default());
    assert_eq!(entry.into_event_id(), id);
}

#[test]
fn error_event_keeps_error_and_addons() {
    let id = LogId::new("events", "failure", LogLevel::Error);
    let filter = LogFilter::new("error(infos)");
    let err = ErrLogEvent::new_with_msg(17u32, id, "it failed", origin_here())
        .add_info("first", Some(&filter))
        .add_debug("hidden", Some(&filter))
        .add_trace("hidden too", None);
    let (error, event) = err.into_err();
    assert_eq!(error, 17);
    let entry = event.get_entry();
    assert_eq!(entry.get_msg().map(|m| m.as_str().to_string()), Some("it failed".to_string()));
    assert_eq!(entry.get_infos(), &vec!["first".to_string()]);
    assert!(entry.get_debugs().is_empty());
    assert_eq!(entry.get_traces(), &vec!["hidden too".to_string()]);
    let plain = ErrLogEvent::new("e", id, origin_here());
    let (error, event) = plain.into_err();
    assert_eq!(error, "e");
    assert!(event.get_entry().get_msg().is_none());
}

#[test]
fn messages_convert_and_compare() {
    let msg = LogMsg::from("text".to_string());
    assert!(msg == "text".to_string());
    assert!(msg == *"text");
    assert!(!(msg == *"other"));
    assert_eq!(String::from(msg.clone()), "text");
    assert_eq!(msg.to_string(), "text");
}

#[test]
fn origins_as_text() {
    let origin = Origin::new("src/main.rs", 42, "my_crate::main");
    assert_eq!(origin.to_string(), "file=\"src/main.rs\", line=42, module=\"my_crate::main\"");
    let location: String = origin.location().iter().collect();
    assert_eq!(location, "module=\"my_crate::main\", file=\"src/main.rs\", line=42");
}

#[test]
fn subscription_keys_compare_by_crate_and_id() {
    let id = LogId::new("events", "id", LogLevel::Info);
    let key = SubscriptionKey::new("my_crate", id);
    assert!(key == SubscriptionKey::new("my_crate", id));
    assert!(key != SubscriptionKey::new("other_crate", id));
    assert_eq!(key.get_crate_name(), "my_crate");
    assert_eq!(key.get_log_id(), id);
}

#[test]
fn set_event_of_crate() {
    let id = LogId::new("events", "id", LogLevel::Warn);
    let event = id.set_event("my_crate", "msg", "src/lib.rs", 3, "my_crate::m").finalize();
    assert_eq!(event.get_crate_name(), "my_crate");
    assert_eq!(event.get_id(), id);
    assert_eq!(event.get_entry().get_msg(), "msg");
}

#[test]
fn built_config_logs_by_level_until_disabled() {
    let id = LogId::new("events", "id", LogLevel::Error);
    let warn = LogId::new("events", "warn", LogLevel::Warn);
    let built = FilterConfig::builder().build();
    assert!(built.allow_event(id, &origin_here()));
    assert!(!built.allow_event(warn, &origin_here()));
    let disabled = FilterConfig::builder().disabled_logging().build();
    assert!(!disabled.allow_event(id, &origin_here()));
    let handler_origin = Origin::new("src/lib.rs", 1, "logid::event_handler::terminal");
    assert!(disabled.allow_event(id, &handler_origin));
    let trace = FilterConfig::from_level_and_addons(LogLevel::Trace, vec![]);
    assert!(trace.allow_event(LogId::new("events", "t", LogLevel::Trace), &origin_here()));
}
