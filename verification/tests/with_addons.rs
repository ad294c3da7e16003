use logid::derived_ids::{derived_log_id, variant_index};
use logid::event::origin::Origin;
use logid::log_id::{LogId, LogLevel};
use logid::logging::error_event::ErrLogEvent;
use logid::logging::event_entry::AddonKind;
use logid::logging::intermediary_event::IntermediaryLogEvent;
use logid::logging::msg::LogMsg;
use lsp_types::{Diagnostic, DiagnosticSeverity, Position, Range};

#[derive(Debug, Clone, Copy)]
struct TestDummy {}

impl From<TestDummy> for LogId {
    fn from(_value: TestDummy) -> Self {
        LogId::new("with_addons", "TestDummy", LogLevel::Error)
    }
}

fn origin_of_test() -> Origin {
    Origin::new("tests/with_addons.rs", 30, "with_addons")
}

#[test]
fn add_single_info_for_err() {
    let dummy = TestDummy {};
    let err = ErrLogEvent::new(dummy, dummy.into(), origin_of_test()).add_info("Test", None);
    let (_, event) = err.into_err();

    let entry = event.get_entry();
    assert_eq!(entry.get_infos().len(), 1, "Additional info was not added to entry");
    assert_eq!(
        entry.get_infos().first().unwrap(),
        "Test",
        "Set additional info was not stored in the entry"
    );
}

#[test]
fn add_multiple_infos_for_err() {
    let dummy = TestDummy {};
    let err = ErrLogEvent::new(dummy, dummy.into(), origin_of_test())
        .add_info("Test", None)
        .add_info("Test", None)
        .add_info("Test", None);
    let (_, event) = err.into_err();

    let entry = event.get_entry();
    assert_eq!(entry.get_infos().len(), 3, "Additional info was not added to entry");
    assert_eq!(
        entry.get_infos().first().unwrap(),
        "Test",
        "Set additional info was not stored in the entry"
    );
}

#[derive(Debug, Clone, Copy, PartialEq)]
enum TestWarnId {
    One,
}

impl From<TestWarnId> for LogId {
    fn from(value: TestWarnId) -> Self {
        derived_log_id("with_addons", &vec!["TestWarnId::One"], value as usize, LogLevel::Warn)
    }
}

#[test]
fn diagnostics_feature_capture_single_logid_with_diagnostics() {
    let msg = "Set first log message";
    let diagnostics = Diagnostic {
        range: Range { start: Position { line: 0, character: 4 }, end: Position { line: 0, character: 10 } },
        severity: Some(DiagnosticSeverity::INFORMATION),
        message: "Some diagnostic information useful for lsp implementations.".to_owned(),
        ..Default::default()
    };

    let event = IntermediaryLogEvent::new(TestWarnId::One.into(), Some(LogMsg::new(msg)), origin_of_test())
        .add_addon(AddonKind::Diagnostic(diagnostics.clone()), None);

    let entry = event.get_entry();
    let act_diagnostics = entry.get_diagnostics().last().unwrap();
    assert_eq!(act_diagnostics, &diagnostics, "Set and stored diagnostics are not equal");
}

#[derive(Debug, Clone, Copy, PartialEq)]
enum TestTraceId {
    One,
    Two,
}

fn trace_identifiers() -> Vec<&'static str> {
    vec!["TestTraceId::One", "TestTraceId::Two"]
}

impl From<TestTraceId> for LogId {
    fn from(value: TestTraceId) -> Self {
        derived_log_id("with_addons", &trace_identifiers(), value as usize, LogLevel::Trace)
    }
}

impl From<LogId> for TestTraceId {
    fn from(value: LogId) -> Self {
        match variant_index(&value, "with_addons", &trace_identifiers()) {
            Some(1) => TestTraceId::Two,
            _ => TestTraceId::One,
        }
    }
}

#[test]
fn payloads_feature_capture_single_logid_with_paylod() {
    let msg = "Set first log message";
    let mut features = serde_json::Map::new();
    features.insert(
        "features".to_string(),
        serde_json::Value::Array(vec![
            serde_json::Value::String("serde".to_string()),
            serde_json::Value::String("json".to_string()),
        ]),
    );
    let mut object = serde_json::Map::new();
    object.insert("code".to_string(), serde_json::Value::from(200));
    object.insert("success".to_string(), serde_json::Value::Bool(true));
    object.insert("payload".to_string(), serde_json::Value::Object(features));
    let payload = serde_json::Value::Object(object);

    let event = IntermediaryLogEvent::new(TestTraceId::One.into(), Some(LogMsg::new(msg)), origin_of_test())
        .add_addon(AddonKind::Payload(payload.clone()), None);

    let entry = event.get_entry();
    assert_eq!(
        TestTraceId::from(entry.get_event_id()),
        TestTraceId::One,
        "Set and stored log-ids are not equal"
    );
    assert_eq!(entry.get_level(), LogLevel::Trace, "Set and stored event levels are not equal");
    assert_eq!(entry.get_payloads().len(), 1, "More than one or no payload was set");
    let act_payload = entry.get_payloads().last().unwrap();
    assert_eq!(act_payload, &payload, "Set and stored payloads are not equal");
}
