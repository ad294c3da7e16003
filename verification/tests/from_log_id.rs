use logid::derived_ids::{derived_log_id, variant_identifier, variant_index, VariantFields};
use logid::log_id::{LogId, LogLevel};

#[derive(PartialEq, Eq, Debug, Clone, Copy)]
enum LogIdEnum {
    First,
    Second,
    Third,
}

impl Default for LogIdEnum {
    fn default() -> Self {
        LogIdEnum::First
    }
}

fn logidenum_identifiers() -> Vec<&'static str> {
    vec!["LogIdEnum::First", "LogIdEnum::Second", "LogIdEnum::Third"]
}

impl From<LogIdEnum> for LogId {
    fn from(value: LogIdEnum) -> Self {
        derived_log_id("from_log_id", &logidenum_identifiers(), value as usize, LogLevel::Debug)
    }
}

impl From<LogId> for LogIdEnum {
    fn from(value: LogId) -> Self {
        match variant_index(&value, "from_log_id", &logidenum_identifiers()) {
            Some(0) => LogIdEnum::First,
            Some(1) => LogIdEnum::Second,
            Some(2) => LogIdEnum::Third,
            _ => LogIdEnum::default(),
        }
    }
}

#[derive(PartialEq, Eq, Debug, Clone, Copy)]
enum OtherLogIdEnum {
    One,
    Two,
    Three,
}

impl Default for OtherLogIdEnum {
    fn default() -> Self {
        OtherLogIdEnum::Three
    }
}

fn otherlogidenum_identifiers() -> Vec<&'static str> {
    vec!["OtherLogIdEnum::One", "OtherLogIdEnum::Two", "OtherLogIdEnum::Three"]
}

impl From<OtherLogIdEnum> for LogId {
    fn from(value: OtherLogIdEnum) -> Self {
        derived_log_id("from_log_id", &otherlogidenum_identifiers(), value as usize, LogLevel::Warn)
    }
}

impl From<LogId> for OtherLogIdEnum {
    fn from(value: LogId) -> Self {
        match variant_index(&value, "from_log_id", &otherlogidenum_identifiers()) {
            Some(0) => OtherLogIdEnum::One,
            Some(1) => OtherLogIdEnum::Two,
            Some(2) => OtherLogIdEnum::Three,
            _ => OtherLogIdEnum::default(),
        }
    }
}

#[test]
fn enum_roundtrip_conversion() {
    let first_logid = LogId::from(LogIdEnum::First);
    let second_logid = LogId::from(LogIdEnum::Second);
    let third_logid = LogId::from(LogIdEnum::Third);

    assert_eq!(
        LogIdEnum::from(first_logid),
        LogIdEnum::First,
        "Wrong roundtrip conversion to first enum."
    );
    assert_eq!(
        LogIdEnum::from(second_logid),
        LogIdEnum::Second,
        "Wrong roundtrip conversion to second enum."
    );
    assert_eq!(
        LogIdEnum::from(third_logid),
        LogIdEnum::Third,
        "Wrong roundtrip conversion to third enum."
    );

    assert_eq!(
        std::convert::Into::<LogIdEnum>::into(first_logid),
        LogIdEnum::First,
        "Wrong conversion to first enum."
    );
    assert_eq!(
        std::convert::Into::<LogIdEnum>::into(second_logid),
        LogIdEnum::Second,
        "Wrong conversion to second enum."
    );
    assert_eq!(
        std::convert::Into::<LogIdEnum>::into(third_logid),
        LogIdEnum::Third,
        "Wrong conversion to third enum."
    );
}


#[test]
fn from_log_id_identifiers_are_variant_paths() {
    let computed: Vec<String> = ["First", "Second", "Third"]
        .iter()
        .map(|v| variant_identifier("LogIdEnum", v, VariantFields::Unit))
        .collect();
    assert_eq!(logidenum_identifiers(), computed);
    let computed: Vec<String> = ["One", "Two", "Three"]
        .iter()
        .map(|v| variant_identifier("OtherLogIdEnum", v, VariantFields::Unit))
        .collect();
    assert_eq!(otherlogidenum_identifiers(), computed);
}
