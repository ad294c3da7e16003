use logid::logging::crate_filter;
use logid::logging::filter::LogIdFilter;

#[test]
fn filter_valid_log_id_filter() {
    let log_id_filter = crate_filter::LogIdFilter::try_from("my_crate::my_module::my_id").unwrap();

    assert_eq!(
        log_id_filter.get_crate_name(),
        "my_crate",
        "Crate name extraction was not correct"
    );
    assert_eq!(
        log_id_filter.get_module_path(),
        "my_module",
        "Module path extraction was not correct"
    );
    assert_eq!(
        log_id_filter.get_identifier(),
        "my_id",
        "Identifier extraction was not correct"
    );
}

#[test]
fn valid_log_id_filter_without_module() {
    let log_id_filter = crate_filter::LogIdFilter::try_from("my_crate::my_id").unwrap();

    assert_eq!(
        log_id_filter.get_crate_name(),
        "my_crate",
        "Crate name extraction was not correct"
    );
    assert_eq!(
        log_id_filter.get_module_path(),
        "",
        "Module path extraction was not correct"
    );
    assert_eq!(
        log_id_filter.get_identifier(),
        "my_id",
        "Identifier extraction was not correct"
    );
}

#[test]
fn valid_log_id_filter_with_sub_module() {
    let log_id_filter =
        crate_filter::LogIdFilter::try_from("my_crate::my_module::sub_module::my_id").unwrap();

    assert_eq!(
        log_id_filter.get_crate_name(),
        "my_crate",
        "Crate name extraction was not correct"
    );
    assert_eq!(
        log_id_filter.get_module_path(),
        "my_module::sub_module",
        "Module path extraction was not correct"
    );
    assert_eq!(
        log_id_filter.get_identifier(),
        "my_id",
        "Identifier extraction was not correct"
    );
}

#[test]
fn invalid_log_id_filter_with_empty_crate_name() {
    let log_id_filter = crate_filter::LogIdFilter::try_from("::my_module::my_id");

    assert!(
        log_id_filter.is_err(),
        "Parsing invalid LogIdFilter did not result in error."
    );
}

#[test]
fn filter_invalid_log_id_filter_with_empty_module_path() {
    let log_id_filter = crate_filter::LogIdFilter::try_from("my_crate::::my_id");

    assert!(
        log_id_filter.is_err(),
        "Parsing invalid LogIdFilter did not result in error."
    );
}

#[test]
fn filter_invalid_log_id_filter_with_empty_identifier() {
    let log_id_filter = crate_filter::LogIdFilter::try_from("my_crate::");

    assert!(
        log_id_filter.is_err(),
        "Parsing invalid LogIdFilter did not result in error."
    );
}

#[test]
fn mod_valid_log_id_filter() {
    let log_id_filter = LogIdFilter::try_from("my_crate::my_id").unwrap();

    assert_eq!(
        log_id_filter.get_module_path(),
        "my_crate",
        "Module path extraction was not correct"
    );
    assert_eq!(
        log_id_filter.get_identifier(),
        "my_id",
        "Identifier extraction was not correct"
    );
}

#[test]
fn valid_log_id_filter_with_one_submodule() {
    let log_id_filter = LogIdFilter::try_from("my_crate::my_module::my_id").unwrap();

    assert_eq!(
        log_id_filter.get_module_path(),
        "my_crate::my_module",
        "Module path extraction was not correct"
    );
    assert_eq!(
        log_id_filter.get_identifier(),
        "my_id",
        "Identifier extraction was not correct"
    );
}

#[test]
fn valid_log_id_filter_with_submodule() {
    let log_id_filter = LogIdFilter::try_from("my_crate::my_module::sub_module::my_id").unwrap();

    assert_eq!(
        log_id_filter.get_module_path(),
        "my_crate::my_module::sub_module",
        "Module path extraction was not correct"
    );
    assert_eq!(
        log_id_filter.get_identifier(),
        "my_id",
        "Identifier extraction was not correct"
    );
}

#[test]
fn mod_invalid_log_id_filter_with_empty_module_path() {
    let log_id_filter = LogIdFilter::try_from("::my_id");

    assert!(
        log_id_filter.is_err(),
        "Parsing invalid LogIdFilter did not result in error."
    );
}

#[test]
fn mod_invalid_log_id_filter_with_empty_identifier() {
    let log_id_filter = LogIdFilter::try_from("my_crate::");

    assert!(
        log_id_filter.is_err(),
        "Parsing invalid LogIdFilter did not result in error."
    );
}
