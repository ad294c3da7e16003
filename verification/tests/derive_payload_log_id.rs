use logid::derived_ids::{variant_identifier, VariantFields};

#[derive(PartialEq, Eq, Debug, Default)]
struct Payload {
    something: String,
}

#[derive(PartialEq, Eq, Debug)]
enum LogIdEnum {
    First(Payload),
    Second(Payload),
    Third,
}

impl Default for LogIdEnum {
    fn default() -> Self {
        LogIdEnum::Third
    }
}

struct PayloadLogId {
    identifier: &'static str,
    payload: Option<serde_json::Value>,
}

fn payload_of(value: serde_json::Value) -> Payload {
    Payload { something: value.as_str().unwrap().to_string() }
}

impl From<PayloadLogId> for LogIdEnum {
    fn from(value: PayloadLogId) -> Self {
        match value.identifier {
            "LogIdEnum::First(_)" => match value.payload {
                Some(payload) => LogIdEnum::First(payload_of(payload)),
                None => Self::default(),
            },
            "LogIdEnum::Second(_)" => match value.payload {
                Some(payload) => LogIdEnum::Second(payload_of(payload)),
                None => Self::default(),
            },
            "LogIdEnum::Third" => LogIdEnum::Third,
            _ => Self::default(),
        }
    }
}

impl From<LogIdEnum> for PayloadLogId {
    fn from(value: LogIdEnum) -> Self {
        match value {
            LogIdEnum::First(payload) => PayloadLogId {
                identifier: "LogIdEnum::First(_)",
                payload: Some(serde_json::Value::String(payload.something)),
            },
            LogIdEnum::Second(payload) => PayloadLogId {
                identifier: "LogIdEnum::Second(_)",
                payload: Some(serde_json::Value::String(payload.something)),
            },
            LogIdEnum::Third => PayloadLogId { identifier: "LogIdEnum::Third", payload: None },
        }
    }
}

#[test]
fn derive_payload_log_id_enum_into_log_id() {
    let first_enum_id: PayloadLogId = LogIdEnum::First(Payload { something: "First".to_owned() }).into();
    let second_enum_id: PayloadLogId = LogIdEnum::Second(Payload { something: "sec".to_owned() }).into();
    let third_enum_id: PayloadLogId = LogIdEnum::Third.into();

    assert_eq!(
        first_enum_id.identifier, "LogIdEnum::First(_)",
        "Derive set wrong identifier name for first variant."
    );
    assert_eq!(
        second_enum_id.identifier, "LogIdEnum::Second(_)",
        "Derive set wrong identifier name for second variant."
    );
    assert_eq!(
        third_enum_id.identifier, "LogIdEnum::Third",
        "Derive set wrong identifier name for third variant."
    );
    assert_eq!(first_enum_id.identifier, variant_identifier("LogIdEnum", "First", VariantFields::Unnamed));
    assert_eq!(third_enum_id.identifier, variant_identifier("LogIdEnum", "Third", VariantFields::Unit));

    assert_eq!(
        LogIdEnum::from(first_enum_id),
        LogIdEnum::First(Payload { something: "First".to_owned() }),
        "Derive set wrong identifier name for first variant."
    );
    assert_eq!(
        LogIdEnum::from(second_enum_id),
        LogIdEnum::Second(Payload { something: "sec".to_owned() }),
        "Derive set wrong identifier name for second variant."
    );
    assert_eq!(
        LogIdEnum::from(third_enum_id),
        LogIdEnum::Third,
        "Derive set wrong identifier name for third variant."
    );
}
