use logid::derived_ids::{derived_log_id, variant_index};
use logid::log_id::{LogId, LogLevel};

#[derive(PartialEq, Eq, Debug, Clone, Copy)]
enum LogIdEnum {
    First,
    Second,
    Third,
}

impl Default for LogIdEnum {
    fn default() -> Self {
        LogIdEnum::First
    }
}

fn logidenum_identifiers() -> Vec<&'static str> {
    vec!["LogIdEnum::First", "LogIdEnum::Second", "LogIdEnum::Third"]
}

impl From<LogIdEnum> for LogId {
    fn from(value: LogIdEnum) -> Self {
        derived_log_id("err_log_id", &logidenum_identifiers(), value as usize, LogLevel::Error)
    }
}

impl From<LogId> for LogIdEnum {
    fn from(value: LogId) -> Self {
        match variant_index(&value, "err_log_id", &logidenum_identifiers()) {
            Some(0) => LogIdEnum::First,
            Some(1) => LogIdEnum::Second,
            Some(2) => LogIdEnum::Third,
            _ => LogIdEnum::default(),
        }
    }
}

#[derive(PartialEq, Eq, Debug, Clone, Copy)]
enum OtherLogIdEnum {
    One,
    Two,
    Three,
}

impl Default for OtherLogIdEnum {
    fn default() -> Self {
        OtherLogIdEnum::Three
    }
}

fn otherlogidenum_identifiers() -> Vec<&'static str> {
    vec!["OtherLogIdEnum::One", "OtherLogIdEnum::Two", "OtherLogIdEnum::Three"]
}

impl From<OtherLogIdEnum> for LogId {
    fn from(value: OtherLogIdEnum) -> Self {
        derived_log_id("err_log_id", &otherlogidenum_identifiers(), value as usize, LogLevel::Error)
    }
}

impl From<LogId> for OtherLogIdEnum {
    fn from(value: LogId) -> Self {
        match variant_index(&value, "err_log_id", &otherlogidenum_identifiers()) {
            Some(0) => OtherLogIdEnum::One,
            Some(1) => OtherLogIdEnum::Two,
            Some(2) => OtherLogIdEnum::Three,
            _ => OtherLogIdEnum::default(),
        }
    }
}

#[test]
fn err_log_id_enum_as_err_log_id() {
    let first_id: LogId = LogIdEnum::First.into();
    let first_enum: LogIdEnum = first_id.into();

    assert_eq!(
        LogIdEnum::from(first_id),
        LogIdEnum::First,
        "Conversion back to enum using `from()` failed.",
    );
    assert_eq!(
        first_enum,
        LogIdEnum::First,
        "Conversion back to enum using `into()` failed.",
    );
    assert_eq!(first_id.get_log_level(), LogLevel::Error, "LogLevel .",);
}
