use logid::derived_ids::{derived_log_id, variant_identifier, variant_index, VariantFields};
use logid::log_id::{LogId, LogLevel};

#[derive(PartialEq, Eq, Debug, Clone, Copy)]
enum LogIdEnum {
    First,
    Second,
    Third,
}

impl Default for LogIdEnum {
    fn default() -> Self {
        LogIdEnum::First
    }
}

fn logidenum_identifiers() -> Vec<&'static str> {
    vec!["LogIdEnum::First", "LogIdEnum::Second", "LogIdEnum::Third"]
}

impl From<LogIdEnum> for LogId {
    fn from(value: LogIdEnum) -> Self {
        derived_log_id("derive_log_id", &logidenum_identifiers(), value as usize, LogLevel::Error)
    }
}

impl From<LogId> for LogIdEnum {
    fn from(value: LogId) -> Self {
        match variant_index(&value, "derive_log_id", &logidenum_identifiers()) {
            Some(0) => LogIdEnum::First,
            Some(1) => LogIdEnum::Second,
            Some(2) => LogIdEnum::Third,
            _ => LogIdEnum::default(),
        }
    }
}

#[derive(PartialEq, Eq, Debug, Clone, Copy)]
enum OtherLogIdEnum {
    One,
    Two,
    Three,
}

impl Default for OtherLogIdEnum {
    fn default() -> Self {
        OtherLogIdEnum::Three
    }
}

fn otherlogidenum_identifiers() -> Vec<&'static str> {
    vec!["OtherLogIdEnum::One", "OtherLogIdEnum::Two", "OtherLogIdEnum::Three"]
}

impl From<OtherLogIdEnum> for LogId {
    fn from(value: OtherLogIdEnum) -> Self {
        derived_log_id("derive_log_id", &otherlogidenum_identifiers(), value as usize, LogLevel::Error)
    }
}

impl From<LogId> for OtherLogIdEnum {
    fn from(value: LogId) -> Self {
        match variant_index(&value, "derive_log_id", &otherlogidenum_identifiers()) {
            Some(0) => OtherLogIdEnum::One,
            Some(1) => OtherLogIdEnum::Two,
            Some(2) => OtherLogIdEnum::Three,
            _ => OtherLogIdEnum::default(),
        }
    }
}

#[derive(PartialEq, Eq, Debug, Clone, Copy)]
enum WarnLogId {
    First,
    Second,
}

impl Default for WarnLogId {
    fn default() -> Self {
        WarnLogId::First
    }
}

fn warnlogid_identifiers() -> Vec<&'static str> {
    vec!["WarnLogId::First", "WarnLogId::Second"]
}

impl From<WarnLogId> for LogId {
    fn from(value: WarnLogId) -> Self {
        derived_log_id("derive_log_id", &warnlogid_identifiers(), value as usize, LogLevel::Warn)
    }
}

#[derive(PartialEq, Eq, Debug, Clone, Copy)]
enum InfoLogId {
    First,
    Second,
}

impl Default for InfoLogId {
    fn default() -> Self {
        InfoLogId::First
    }
}

fn infologid_identifiers() -> Vec<&'static str> {
    vec!["InfoLogId::First", "InfoLogId::Second"]
}

impl From<InfoLogId> for LogId {
    fn from(value: InfoLogId) -> Self {
        derived_log_id("derive_log_id", &infologid_identifiers(), value as usize, LogLevel::Info)
    }
}

#[derive(PartialEq, Eq, Debug, Clone, Copy)]
enum DbgLogId {
    First,
    Second,
}

impl Default for DbgLogId {
    fn default() -> Self {
        DbgLogId::First
    }
}

fn dbglogid_identifiers() -> Vec<&'static str> {
    vec!["DbgLogId::First", "DbgLogId::Second"]
}

impl From<DbgLogId> for LogId {
    fn from(value: DbgLogId) -> Self {
        derived_log_id("derive_log_id", &dbglogid_identifiers(), value as usize, LogLevel::Debug)
    }
}

#[derive(PartialEq, Eq, Debug, Clone, Copy)]
enum TraceLogId {
    First,
    Second,
}

impl Default for TraceLogId {
    fn default() -> Self {
        TraceLogId::First
    }
}

fn tracelogid_identifiers() -> Vec<&'static str> {
    vec!["TraceLogId::First", "TraceLogId::Second"]
}

impl From<TraceLogId> for LogId {
    fn from(value: TraceLogId) -> Self {
        derived_log_id("derive_log_id", &tracelogid_identifiers(), value as usize, LogLevel::Trace)
    }
}

#[test]
fn derive_log_id_enum_into_log_id() {
    let first_enum_id: LogId = LogIdEnum::First.into();
    let second_enum_id: LogId = LogIdEnum::Second.into();
    let third_enum_id: LogId = LogIdEnum::Third.into();

    assert_eq!(
        first_enum_id.get_module_path(),
        "derive_log_id",
        "Derive set wrong module path."
    );
    assert_eq!(
        first_enum_id.get_identifier(),
        "LogIdEnum::First",
        "Derive set wrong identifier name for first variant."
    );
    assert_eq!(
        first_enum_id.get_log_level(),
        LogLevel::Error,
        "Derive set wrong log level."
    );
    assert_eq!(
        second_enum_id.get_identifier(),
        "LogIdEnum::Second",
        "Derive set wrong identifier name for second variant."
    );
    assert_eq!(
        third_enum_id.get_identifier(),
        "LogIdEnum::Third",
        "Derive set wrong identifier name for third variant."
    );
}

#[test]
fn derive_log_id_enum_as_err_log_id() {
    let first_id: LogId = LogIdEnum::First.into();
    let first_enum: LogIdEnum = first_id.into();

    assert_eq!(
        LogIdEnum::from(first_id),
        LogIdEnum::First,
        "Conversion back to enum using `from()` failed.",
    );
    assert_eq!(
        first_enum,
        LogIdEnum::First,
        "Conversion back to enum using `into()` failed.",
    );
    assert_eq!(
        first_id.get_log_level(),
        LogLevel::Error,
        "LogLevel::Error was not set using ErrLogId derive macro.",
    );
}

#[test]
fn enums_as_log_id_differ() {
    let first_enum_id: LogId = LogIdEnum::First.into();
    let other_enum_id: LogId = OtherLogIdEnum::One.into();

    assert_ne!(
        first_enum_id, other_enum_id,
        "Converted LogIds from different enums are equal.",
    );
}

#[test]
fn enum_as_warn_log_id() {
    let warn_id: LogId = WarnLogId::Second.into();

    assert_eq!(
        warn_id.get_identifier(),
        "WarnLogId::Second",
        "Derive set wrong identifier name for second variant.",
    );

    assert_eq!(
        warn_id.get_log_level(),
        LogLevel::Warn,
        "LogLevel::Warn was not set using WarnLogId derive macro.",
    );
}

#[test]
fn enum_as_info_log_id() {
    let info_id: LogId = InfoLogId::Second.into();

    assert_eq!(
        info_id.get_identifier(),
        "InfoLogId::Second",
        "Derive set wrong identifier name for second variant.",
    );

    assert_eq!(
        info_id.get_log_level(),
        LogLevel::Info,
        "LogLevel::Info was not set using InfoLogId derive macro.",
    );
}

#[test]
fn enum_as_dbg_log_id() {
    let dbg_id: LogId = DbgLogId::Second.into();

    assert_eq!(
        dbg_id.get_identifier(),
        "DbgLogId::Second",
        "Derive set wrong identifier name for second variant.",
    );

    assert_eq!(
        dbg_id.get_log_level(),
        LogLevel::Debug,
        "LogLevel::Debug was not set using DbgLogId derive macro.",
    );
}

#[test]
fn enum_as_trace_log_id() {
    let trace_id: LogId = TraceLogId::Second.into();

    assert_eq!(
        trace_id.get_identifier(),
        "TraceLogId::Second",
        "Derive set wrong identifier name for second variant.",
    );

    assert_eq!(
        trace_id.get_log_level(),
        LogLevel::Trace,
        "LogLevel::Trace was not set using TraceLogId derive macro.",
    );
}

#[test]
fn identifiers_are_variant_paths() {
    let computed: Vec<String> = ["First", "Second", "Third"]
        .iter()
        .map(|v| variant_identifier("LogIdEnum", v, VariantFields::Unit))
        .collect();
    assert_eq!(logidenum_identifiers(), computed);
    let computed: Vec<String> = ["One", "Two", "Three"]
        .iter()
        .map(|v| variant_identifier("OtherLogIdEnum", v, VariantFields::Unit))
        .collect();
    assert_eq!(otherlogidenum_identifiers(), computed);
    let computed: Vec<String> = ["First", "Second"]
        .iter()
        .map(|v| variant_identifier("WarnLogId", v, VariantFields::Unit))
        .collect();
    assert_eq!(warnlogid_identifiers(), computed);
    let computed: Vec<String> = ["First", "Second"]
        .iter()
        .map(|v| variant_identifier("InfoLogId", v, VariantFields::Unit))
        .collect();
    assert_eq!(infologid_identifiers(), computed);
    let computed: Vec<String> = ["First", "Second"]
        .iter()
        .map(|v| variant_identifier("DbgLogId", v, VariantFields::Unit))
        .collect();
    assert_eq!(dbglogid_identifiers(), computed);
    let computed: Vec<String> = ["First", "Second"]
        .iter()
        .map(|v| variant_identifier("TraceLogId", v, VariantFields::Unit))
        .collect();
    assert_eq!(tracelogid_identifiers(), computed);
}
