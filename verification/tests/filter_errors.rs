use logid::log_id::{LogId, LogLevel};
use logid::logging::filter::{
    set_filter, AddonFilter, FilterConfig, FilterError, LogFilter, LogIdAddonFilter,
    LogIdModuleFilter,
};

#[test]
fn addon_keywords() {
    assert!(matches!(AddonFilter::try_from("infos"), Ok(AddonFilter::Infos)));
    assert!(matches!(AddonFilter::try_from("all"), Ok(AddonFilter::AllAllowed)));
    assert!(matches!(AddonFilter::try_from("hints"), Ok(AddonFilter::Hint)));
    match AddonFilter::try_from("Infos") {
        Err(FilterError::ParsingAddons(bad)) => assert_eq!(bad, "Infos"),
        other => panic!("unexpected result {:?}", other),
    }
}

#[test]
fn error_texts() {
    assert_eq!(
        FilterError::ParsingLogId("x".to_string()).to_string(),
        "Could not parse 'x' as `LogId`."
    );
    assert_eq!(FilterError::ParsingAddons("y".to_string()).to_string(), "Could not parse addons 'y'.");
    assert_eq!(FilterError::ParsingModule("z".to_string()).to_string(), "Could not parse module 'z'.");
    assert_eq!(FilterError::SettingFilter.to_string(), "Could not set the new filter configuration.");
}

#[test]
fn parse_errors_name_the_bad_text() {
    match LogIdAddonFilter::try_from("no_module") {
        Err(FilterError::ParsingLogId(bad)) => assert_eq!(bad, "no_module"),
        other => panic!("unexpected result {:?}", other),
    }
    match LogIdModuleFilter::try_from(" = warn", Vec::new(), Vec::new()) {
        Err(FilterError::ParsingModule(bad)) => assert_eq!(bad, " = warn"),
        other => panic!("unexpected result {:?}", other),
    }
    match LogIdModuleFilter::try_from("m = loud", Vec::new(), Vec::new()) {
        Err(FilterError::ParsingModule(bad)) => assert_eq!(bad, "m = loud"),
        other => panic!("unexpected result {:?}", other),
    }
    assert!(LogIdModuleFilter::try_from("my_crate::m = warn", Vec::new(), Vec::new()).is_ok());
}

#[test]
fn setting_a_filter() {
    let mut filter = LogFilter::new("off");
    let id = LogId::new("my_crate", "id", LogLevel::Error);
    let origin = logid::event::origin::Origin::new("src/lib.rs", 1, "my_crate");
    assert!(!filter.get_config().allow_event(id, &origin));
    assert!(set_filter(Some(&mut filter), FilterConfig::new("error")).is_ok());
    assert!(filter.get_config().allow_event(id, &origin));
    assert!(matches!(set_filter(None, FilterConfig::new("error")), Err(FilterError::SettingFilter)));
}

#[test]
fn module_rule_with_spaces() {
    let config = FilterConfig::new("logid_core::logging = warn");
    let inside = logid::event::origin::Origin::new("f.rs", 1, "logid_core::logging::tests");
    let outside = logid::event::origin::Origin::new("f.rs", 1, "other_crate");
    let warn = LogId::new("x", "w", LogLevel::Warn);
    let info = LogId::new("x", "i", LogLevel::Info);
    assert!(config.allow_event(warn, &inside));
    assert!(!config.allow_event(info, &inside));
    assert!(!config.allow_event(warn, &outside));
}
