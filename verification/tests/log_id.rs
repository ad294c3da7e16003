use logid::log_id::{LogId, LogLevel};

#[test]
fn create_log_id_with_macro() {
    let log_id = LogId::new("logid_core::log_id::tests", "custom_ident", LogLevel::Debug);

    assert_eq!(
        log_id.get_module_path(),
        "logid_core::log_id::tests",
        "Module path was not set correctly using `log_id!()` macro."
    );
    assert_eq!(
        log_id.get_identifier(),
        "custom_ident",
        "Identifier was not set correctly using `log_id!()` macro."
    );
    assert_eq!(
        log_id.get_log_level(),
        LogLevel::Debug,
        "Log level was not set correctly using `log_id!()` macro."
    );
}

#[test]
fn log_id_text() {
    let log_id = LogId::new("my_crate::my_module", "my_id", LogLevel::Warn);
    assert_eq!(log_id.to_string(), "id='my_crate::my_module::my_id'");
}

#[test]
fn level_labels_and_order() {
    assert_eq!(LogLevel::Error.to_string(), "ERR");
    assert_eq!(LogLevel::Warn.to_string(), "WARN");
    assert_eq!(LogLevel::Info.to_string(), "INFO");
    assert_eq!(LogLevel::Debug.to_string(), "DEBUG");
    assert_eq!(LogLevel::Trace.to_string(), "TRACE");
    assert!(LogLevel::Trace.at_most(LogLevel::Debug));
    assert!(!LogLevel::Error.at_most(LogLevel::Warn));
    assert_eq!(LogLevel::Error.rank(), 4);
    assert_eq!(LogLevel::default(), LogLevel::Debug);
}

#[test]
fn log_ids_compare_by_all_parts() {
    let a = LogId::new("m", "id", LogLevel::Info);
    assert_eq!(a, LogId::new("m", "id", LogLevel::Info));
    assert_ne!(a, LogId::new("m", "id", LogLevel::Warn));
    assert_ne!(a, LogId::new("n", "id", LogLevel::Info));
    assert_ne!(a, LogId::new("m", "other", LogLevel::Info));
    let d = LogId::default();
    assert_eq!(d.get_module_path(), "");
    assert_eq!(d.get_log_level(), LogLevel::Debug);
}
