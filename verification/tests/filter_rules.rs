use logid::event::origin::Origin;
use logid::log_id::{LogId, LogLevel};
use logid::logging::event_entry::{AddonKind, LogEventEntry};
use logid::logging::filter::FilterConfig;
use logid::logging::intermediary_event::IntermediaryLogEvent;
use logid::logging::msg::{LogMsg, NO_MSG};

fn general_origin() -> Origin {
    Origin::new("core/src/logging/tests/filter/only_general.rs", 10, "logid_core::logging::tests::filter::only_general")
}

fn general_entry(log_id: LogId, origin: Origin) -> LogEventEntry {
    LogEventEntry::new(log_id, Some(LogMsg::new("")), origin)
}

#[test]
fn logging_turned_off() {
    let filter = FilterConfig::new("off");

    let error_id = LogId::new("logid_core::logging::tests::filter::only_general", "err_id", LogLevel::Error);

    assert!(
        !filter.allow_entry(&general_entry(error_id, general_origin())),
        "Error level LogId allowed by filter."
    );
}

#[test]
fn empty_filter_means_logging_turned_off() {
    let filter = FilterConfig::new("");

    let error_id = LogId::new("logid_core::logging::tests::filter::only_general", "err_id", LogLevel::Error);

    assert!(
        !filter.allow_entry(&general_entry(error_id, general_origin())),
        "Error level LogId allowed by filter."
    );
}

#[test]
fn only_allow_error() {
    let filter = FilterConfig::new("error");

    let error_id = LogId::new("logid_core::logging::tests::filter::only_general", "err_id", LogLevel::Error);
    assert!(
        filter.allow_entry(&general_entry(error_id, general_origin())),
        "Error level LogId not allowed by filter."
    );

    let warn_id = LogId::new("logid_core::logging::tests::filter::only_general", "warn_id", LogLevel::Warn);
    assert!(
        !filter.allow_entry(&general_entry(warn_id, general_origin())),
        "Warn level LogId allowed by filter."
    );
}

#[test]
fn allow_error_and_warning() {
    let filter = FilterConfig::new("warn");

    let error_id = LogId::new("logid_core::logging::tests::filter::only_general", "err_id", LogLevel::Error);
    assert!(
        filter.allow_entry(&general_entry(error_id, general_origin())),
        "Error level LogId not allowed by filter."
    );

    let warn_id = LogId::new("logid_core::logging::tests::filter::only_general", "warn_id", LogLevel::Warn);
    assert!(
        filter.allow_entry(&general_entry(warn_id, general_origin())),
        "Warn level LogId not allowed by filter."
    );

    let info_id = LogId::new("logid_core::logging::tests::filter::only_general", "info_id", LogLevel::Info);
    assert!(
        !filter.allow_entry(&general_entry(info_id, general_origin())),
        "Info level LogId allowed by filter."
    );
}

#[test]
fn allow_error_warning_and_info() {
    let filter = FilterConfig::new("info");

    let error_id = LogId::new("logid_core::logging::tests::filter::only_general", "err_id", LogLevel::Error);
    assert!(
        filter.allow_entry(&general_entry(error_id, general_origin())),
        "Error level LogId not allowed by filter."
    );

    let warn_id = LogId::new("logid_core::logging::tests::filter::only_general", "warn_id", LogLevel::Warn);
    assert!(
        filter.allow_entry(&general_entry(warn_id, general_origin())),
        "Warn level LogId not allowed by filter."
    );

    let info_id = LogId::new("logid_core::logging::tests::filter::only_general", "info_id", LogLevel::Info);
    assert!(
        filter.allow_entry(&general_entry(info_id, general_origin())),
        "Info level LogId not allowed by filter."
    );

    let debug_id = LogId::new("logid_core::logging::tests::filter::only_general", "debug_id", LogLevel::Debug);
    assert!(
        !filter.allow_entry(&general_entry(debug_id, general_origin())),
        "Debug level LogId allowed by filter."
    );
}

#[test]
fn allow_error_warning_info_and_debug() {
    let filter = FilterConfig::new("debug");

    let error_id = LogId::new("logid_core::logging::tests::filter::only_general", "err_id", LogLevel::Error);
    assert!(
        filter.allow_entry(&general_entry(error_id, general_origin())),
        "Error level LogId not allowed by filter."
    );

    let warn_id = LogId::new("logid_core::logging::tests::filter::only_general", "warn_id", LogLevel::Warn);
    assert!(
        filter.allow_entry(&general_entry(warn_id, general_origin())),
        "Warn level LogId not allowed by filter."
    );

    let info_id = LogId::new("logid_core::logging::tests::filter::only_general", "info_id", LogLevel::Info);
    assert!(
        filter.allow_entry(&general_entry(info_id, general_origin())),
        "Info level LogId not allowed by filter."
    );

    let debug_id = LogId::new("logid_core::logging::tests::filter::only_general", "debug_id", LogLevel::Debug);
    assert!(
        filter.allow_entry(&general_entry(debug_id, general_origin())),
        "Debug level LogId not allowed by filter."
    );

    let trace_id = LogId::new("logid_core::logging::tests::filter::only_general", "trace_id", LogLevel::Trace);
    assert!(
        !filter.allow_entry(&general_entry(trace_id, general_origin())),
        "Trace level LogId allowed by filter."
    );
}

#[test]
fn allow_error_warning_info_debug_and_trace() {
    let filter = FilterConfig::new("trace");

    let error_id = LogId::new("logid_core::logging::tests::filter::only_general", "err_id", LogLevel::Error);
    assert!(
        filter.allow_entry(&general_entry(error_id, general_origin())),
        "Error level LogId not allowed by filter."
    );

    let warn_id = LogId::new("logid_core::logging::tests::filter::only_general", "warn_id", LogLevel::Warn);
    assert!(
        filter.allow_entry(&general_entry(warn_id, general_origin())),
        "Warn level LogId not allowed by filter."
    );

    let info_id = LogId::new("logid_core::logging::tests::filter::only_general", "info_id", LogLevel::Info);
    assert!(
        filter.allow_entry(&general_entry(info_id, general_origin())),
        "Info level LogId not allowed by filter."
    );

    let debug_id = LogId::new("logid_core::logging::tests::filter::only_general", "debug_id", LogLevel::Debug);
    assert!(
        filter.allow_entry(&general_entry(debug_id, general_origin())),
        "Debug level LogId not allowed by filter."
    );

    let trace_id = LogId::new("logid_core::logging::tests::filter::only_general", "trace_id", LogLevel::Trace);
    assert!(
        filter.allow_entry(&general_entry(trace_id, general_origin())),
        "Trace level LogId not allowed by filter."
    );
}

#[test]
fn logging_on_equal_to_trace() {
    let filter = FilterConfig::new("on");

    let error_id = LogId::new("logid_core::logging::tests::filter::only_general", "err_id", LogLevel::Error);
    assert!(
        filter.allow_entry(&general_entry(error_id, general_origin())),
        "Error level LogId not allowed by filter."
    );

    let warn_id = LogId::new("logid_core::logging::tests::filter::only_general", "warn_id", LogLevel::Warn);
    assert!(
        filter.allow_entry(&general_entry(warn_id, general_origin())),
        "Warn level LogId not allowed by filter."
    );

    let info_id = LogId::new("logid_core::logging::tests::filter::only_general", "info_id", LogLevel::Info);
    assert!(
        filter.allow_entry(&general_entry(info_id, general_origin())),
        "Info level LogId not allowed by filter."
    );

    let debug_id = LogId::new("logid_core::logging::tests::filter::only_general", "debug_id", LogLevel::Debug);
    assert!(
        filter.allow_entry(&general_entry(debug_id, general_origin())),
        "Debug level LogId not allowed by filter."
    );

    let trace_id = LogId::new("logid_core::logging::tests::filter::only_general", "trace_id", LogLevel::Trace);
    assert!(
        filter.allow_entry(&general_entry(trace_id, general_origin())),
        "Trace level LogId not allowed by filter."
    );
}

fn global_origin() -> Origin {
    Origin::new("core/src/logging/tests/filter/global_ids.rs", 10, "logid_core::logging::tests::filter::global_ids")
}

fn global_entry(log_id: LogId, origin: Origin) -> LogEventEntry {
    LogEventEntry::new(log_id, Some(LogMsg::new("")), origin)
}

#[test]
fn global_ids_allow_single_id() {
    let log_id = LogId::new("logid_core::logging::tests::filter::global_ids", "log_id", LogLevel::Info);
    let filter = FilterConfig::new(&format!(
        "on[{}::{}]",
        log_id.get_module_path(),
        log_id.get_identifier()
    ));

    assert!(
        filter.allow_entry(&global_entry(log_id, global_origin())),
        "Explicitly allowed LogId not allowed by filter."
    );
}

#[test]
fn global_ids_allow_multiple_ids() {
    let log_id_1 = LogId::new("logid_core::logging::tests::filter::global_ids", "log_id_1", LogLevel::Info);
    let log_id_2 = LogId::new("logid_core::logging::tests::filter::global_ids", "log_id_2", LogLevel::Debug);

    let filter = FilterConfig::new(&format!(
        "on[{}::{} | {}::{}]",
        log_id_1.get_module_path(),
        log_id_1.get_identifier(),
        log_id_2.get_module_path(),
        log_id_2.get_identifier()
    ));

    assert!(
        filter.allow_entry(&global_entry(log_id_1, global_origin())),
        "Explicitly allowed first LogId not allowed by filter."
    );

    assert!(
        filter.allow_entry(&global_entry(log_id_2, global_origin())),
        "Explicitly allowed second LogId not allowed by filter."
    );
}

#[test]
fn global_ids_invalid_ids_syntax() {
    let log_id = LogId::new("logid_core::logging::tests::filter::global_ids", "log_id", LogLevel::Info);

    let filter = FilterConfig::new(&format!(
        "on]{}::{}[",
        log_id.get_module_path(),
        log_id.get_identifier(),
    ));

    assert!(
        !filter.allow_entry(&global_entry(log_id, global_origin())),
        "Invalid filter syntax allowed LogId by filter."
    );
}

fn mix_origin() -> Origin {
    Origin::new("core/src/logging/tests/filter/rule_mix.rs", 10, "logid_core::logging::tests::filter::rule_mix")
}

fn mix_entry(log_id: LogId, origin: Origin) -> LogEventEntry {
    LogEventEntry::new(log_id, Some(LogMsg::new("")), origin)
}

#[test]
fn global_id_and_general_error() {
    let log_id = LogId::new("logid_core::logging::tests::filter::rule_mix", "log_id", LogLevel::Info);
    let err_id = LogId::new("logid_core::logging::tests::filter::rule_mix", "err_id", LogLevel::Error);
    let warn_id = LogId::new("logid_core::logging::tests::filter::rule_mix", "warn_id", LogLevel::Warn);

    let filter = FilterConfig::new(&format!(
        "on[{}::{}], error",
        log_id.get_module_path(),
        log_id.get_identifier()
    ));

    assert!(
        filter.allow_entry(&mix_entry(log_id, mix_origin())),
        "Explicitly allowed LogId not allowed by filter."
    );

    assert!(
        filter.allow_entry(&mix_entry(err_id, mix_origin())),
        "Error level not allowed by filter."
    );

    assert!(
        !filter.allow_entry(&mix_entry(warn_id, mix_origin())),
        "Warn level allowed by filter."
    );
}

fn module_origin() -> Origin {
    Origin::new("core/src/logging/tests/filter/only_module.rs", 10, "logid_core::logging::tests::filter::only_module")
}

fn module_entry(log_id: LogId, origin: Origin) -> LogEventEntry {
    LogEventEntry::new(log_id, Some(LogMsg::new("")), origin)
}

#[test]
fn only_module_single_module() {
    let filter = FilterConfig::new("logid_core::logging = warn");

    let warn_id = LogId::new("logid_core::logging::tests::filter::only_module", "warn_id", LogLevel::Warn);
    assert!(
        filter.allow_entry(&module_entry(warn_id, module_origin())),
        "Warn level LogId not allowed by filter."
    );

    let info_id = LogId::new("logid_core::logging::tests::filter::only_module", "info_id", LogLevel::Info);
    assert!(
        !filter.allow_entry(&module_entry(info_id, module_origin())),
        "Info level LogId allowed by filter."
    );
}

#[test]
fn only_crate_name_as_module() {
    let filter = FilterConfig::new("logid_core = warn");

    let warn_id = LogId::new("logid_core::logging::tests::filter::only_module", "warn_id", LogLevel::Warn);
    assert!(
        filter.allow_entry(&module_entry(warn_id, module_origin())),
        "Warn level LogId not allowed by filter."
    );

    let info_id = LogId::new("logid_core::logging::tests::filter::only_module", "info_id", LogLevel::Info);
    assert!(
        !filter.allow_entry(&module_entry(info_id, module_origin())),
        "Info level LogId allowed by filter."
    );
}

#[test]
fn only_module_multiple_modules() {
    let filter = FilterConfig::new(
        "logid_core::logging::tests = warn, logid_core::logging::event_entry = info",
    );

    let warn_id = LogId::new("logid_core::logging::tests::filter::only_module", "warn_id", LogLevel::Warn);
    assert!(
        filter.allow_entry(&module_entry(warn_id, module_origin())),
        "Warn level LogId not allowed by filter."
    );

    let info_id = LogId::new("logid_core::logging::tests::filter::only_module", "info_id", LogLevel::Info);
    assert!(
        !filter.allow_entry(&module_entry(info_id, module_origin())),
        "Info level LogId allowed by filter."
    );
}

#[test]
fn only_module_module_with_id() {
    let filter = FilterConfig::new(
        "logid_core::logging[logid_core::logging::tests::filter::only_module::info_id] = error",
    );

    let warn_id = LogId::new("logid_core::logging::tests::filter::only_module", "warn_id", LogLevel::Warn);
    assert!(
        !filter.allow_entry(&module_entry(warn_id, module_origin())),
        "Warn level LogId allowed by filter."
    );

    let info_id = LogId::new("logid_core::logging::tests::filter::only_module", "info_id", LogLevel::Info);
    assert!(
        filter.allow_entry(&module_entry(info_id, module_origin())),
        "Explicitly allowed LogId not allowed by filter."
    );
}

#[test]
fn only_module_module_with_id_allowed_only() {
    let filter = FilterConfig::new(
        "logid_core::logging[logid_core::logging::tests::filter::only_module::info_id]",
    );

    let error_id = LogId::new("logid_core::logging::tests::filter::only_module", "error_id", LogLevel::Error);
    assert!(
        !filter.allow_entry(&module_entry(error_id, module_origin())),
        "Error level LogId allowed by filter."
    );

    let info_id = LogId::new("logid_core::logging::tests::filter::only_module", "info_id", LogLevel::Info);
    assert!(
        filter.allow_entry(&module_entry(info_id, module_origin())),
        "Explicitly allowed LogId not allowed by filter."
    );
}

fn addon_origin() -> Origin {
    Origin::new("core/src/logging/tests/filter/addons.rs", 10, "logid_core::logging::tests::filter::addons")
}

fn addon_entry(log_id: LogId, origin: Origin) -> LogEventEntry {
    LogEventEntry::new(log_id, Some(LogMsg::new("")), origin)
}

#[test]
fn allow_single_id_with_infos_addon() {
    let log_id = LogId::new("logid_core::logging::tests::filter::addons", "log_id", LogLevel::Info);
    let filter = FilterConfig::new(&format!(
        "on[{}::{}(infos)]",
        log_id.get_module_path(),
        log_id.get_identifier()
    ));

    assert!(
        filter.allow_entry(&addon_entry(log_id, addon_origin())),
        "Explicitly allowed LogId not allowed by filter."
    );

    assert!(
        filter.allow_addon(
            log_id,
            &addon_origin(),
            &AddonKind::Info(String::from("Some info"))
        ),
        "Info addon not allowed by filter."
    );
}

#[test]
fn allow_single_id_with_infos_and_origin_addon() {
    let log_id = LogId::new("logid_core::logging::tests::filter::addons", "log_id", LogLevel::Info);
    let filter = FilterConfig::new(&format!(
        "on[{}::{}(infos & origin)]",
        log_id.get_module_path(),
        log_id.get_identifier()
    ));

    assert!(
        filter.allow_entry(&addon_entry(log_id, addon_origin())),
        "Explicitly allowed LogId not allowed by filter."
    );

    assert!(
        filter.allow_addon(
            log_id,
            &addon_origin(),
            &AddonKind::Info(String::from("Some info"))
        ),
        "Info addon not allowed by filter."
    );

    assert!(
        filter.show_origin_info(log_id, &addon_origin()),
        "Origin info not allowed by filter."
    );
}

#[test]
fn allow_single_id_with_related_addon() {
    let log_id = LogId::new("logid_core::logging::tests::filter::addons", "log_id", LogLevel::Info);
    let filter = FilterConfig::new(&format!(
        "on[{}::{}(related)]",
        log_id.get_module_path(),
        log_id.get_identifier()
    ));

    assert!(
        filter.allow_entry(&addon_entry(log_id, addon_origin())),
        "Explicitly allowed LogId not allowed by filter."
    );

    let log_event = IntermediaryLogEvent::new(log_id, NO_MSG, addon_origin());
    let finalized = log_event.finalize();
    assert!(
        filter.allow_addon(log_id, &addon_origin(), &AddonKind::Related(finalized)),
        "Related addon not allowed by filter."
    );
}

#[test]
fn allow_single_id_with_all_addons() {
    let log_id = LogId::new("logid_core::logging::tests::filter::addons", "log_id", LogLevel::Info);
    let filter = FilterConfig::new(&format!(
        "on[{}::{}(all)]",
        log_id.get_module_path(),
        log_id.get_identifier()
    ));

    assert!(
        filter.allow_entry(&addon_entry(log_id, addon_origin())),
        "Explicitly allowed LogId not allowed by filter."
    );

    assert!(
        filter.allow_addon(
            log_id,
            &addon_origin(),
            &AddonKind::Info(String::from("Some info"))
        ),
        "Info addon not allowed by filter."
    );

    assert!(
        filter.allow_addon(
            log_id,
            &addon_origin(),
            &AddonKind::Debug(String::from("Some info"))
        ),
        "Debug addon not allowed by filter."
    );

    assert!(
        filter.allow_addon(
            log_id,
            &addon_origin(),
            &AddonKind::Trace(String::from("Some info"))
        ),
        "Trace addon not allowed by filter."
    );

    assert!(
        filter.allow_addon(
            log_id,
            &addon_origin(),
            &AddonKind::Hint(String::from("Some info"))
        ),
        "Hint addon not allowed by filter."
    );
    assert!(
        filter.allow_addon(
            log_id,
            &addon_origin(),
            &AddonKind::Note(String::from("Some info"))
        ),
        "Note addon not allowed by filter."
    );

    assert!(
        filter.show_origin_info(log_id, &addon_origin()),
        "Origin info not allowed by filter."
    );

    assert!(
        filter.show_id(log_id, &addon_origin()),
        "Event info not allowed by filter."
    );
}

#[test]
fn allow_module_with_infos_addon() {
    let log_id = LogId::new("logid_core::logging::tests::filter::addons", "log_id", LogLevel::Error);
    let filter = FilterConfig::new("logid_core::logging(infos) = error");

    assert!(
        filter.allow_entry(&addon_entry(log_id, addon_origin())),
        "Error level not allowed by filter."
    );

    assert!(
        filter.allow_addon(
            log_id,
            &addon_origin(),
            &AddonKind::Info(String::from("Some info"))
        ),
        "Info addon not allowed by filter."
    );
}

#[test]
fn allow_crate_with_infos_addon() {
    let log_id = LogId::new("logid_core::logging::tests::filter::addons", "log_id", LogLevel::Error);
    let filter = FilterConfig::new("logid_core(infos) = error");

    assert!(
        filter.allow_entry(&addon_entry(log_id, addon_origin())),
        "Error level not allowed by filter."
    );

    assert!(
        filter.allow_addon(
            log_id,
            &addon_origin(),
            &AddonKind::Info(String::from("Some info"))
        ),
        "Info addon not allowed by filter."
    );
}

#[test]
fn allow_general_level_with_infos_addon() {
    let log_id = LogId::new("logid_core::logging::tests::filter::addons", "log_id", LogLevel::Error);
    let filter = FilterConfig::new("error(infos)");

    assert!(
        filter.allow_entry(&addon_entry(log_id, addon_origin())),
        "Error level not allowed by filter."
    );

    assert!(
        filter.allow_addon(
            log_id,
            &addon_origin(),
            &AddonKind::Info(String::from("Some info"))
        ),
        "Info addon not allowed by filter."
    );
}

#[test]
fn only_crate_name() {
    let filter = logid::logging::crate_filter::LogFilter::new("logid-core = warn");
    let origin = Origin::new("tests/filter/only_module.rs", 31, "only_module");

    let warn_id = LogId::new("only_module", "warn_id", LogLevel::Warn);
    assert!(
        filter.allow_event("logid-core", warn_id, "logid-core", &origin),
        "Warn level LogId not allowed by filter."
    );

    let info_id = LogId::new("only_module", "info_id", LogLevel::Info);
    assert!(
        !filter.allow_event("logid-core", info_id, "logid-core", &origin),
        "Info level LogId allowed by filter."
    );
}
