use logid::derived_ids::{derived_log_id, variant_identifier, variant_index, VariantFields};
use logid::log_id::{LogId, LogLevel};

#[test]
fn variant_identifiers_by_shape() {
    assert_eq!(variant_identifier("LogIdEnum", "First", VariantFields::Unit), "LogIdEnum::First");
    assert_eq!(
        variant_identifier("LogIdEnum", "Second", VariantFields::Unnamed),
        "LogIdEnum::Second(_)"
    );
    assert_eq!(
        variant_identifier("LogIdEnum", "Third", VariantFields::Named),
        "LogIdEnum::Third{..}"
    );
    assert_eq!(variant_identifier("My Enum", "A B", VariantFields::Unit), "MyEnum::AB");
}

#[test]
fn roundtrip_and_defaults() {
    let ids = vec!["E::A", "E::B", "E::C"];
    for i in 0..ids.len() {
        let id = derived_log_id("m", &ids, i, LogLevel::Warn);
        assert_eq!(id.get_identifier(), ids[i]);
        assert_eq!(id.get_module_path(), "m");
        assert_eq!(id.get_log_level(), LogLevel::Warn);
        assert_eq!(variant_index(&id, "m", &ids), Some(i));
        assert_eq!(variant_index(&id, "other", &ids), None);
    }
    let unknown = LogId::new("m", "E::D", LogLevel::Warn);
    assert_eq!(variant_index(&unknown, "m", &ids), None);
    let twice = vec!["E::A", "E::A"];
    let id = derived_log_id("m", &twice, 1, LogLevel::Info);
    assert_eq!(variant_index(&id, "m", &twice), Some(0));
}

#[test]
fn variants_of_one_enum_differ() {
    let a = variant_identifier("LogIdEnum", "First", VariantFields::Unit);
    let b = variant_identifier("LogIdEnum", "Second", VariantFields::Unit);
    let c = variant_identifier("LogIdEnum", "First", VariantFields::Unnamed);
    let d = variant_identifier("OtherLogIdEnum", "First", VariantFields::Unit);
    assert_ne!(a, b);
    assert_ne!(b, d);
    assert_ne!(a, d);
    assert_ne!(c, b);
}
