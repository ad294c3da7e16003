use logid::log_id::{LogId, LogLevel};
use logid::logging::event_entry::FinalizedEvent;
use logid::result::LoggedData;

#[test]
fn one_hop_chain() {}

#[test]
fn logged_data_without_event() {
    let data: LoggedData<u32> = LoggedData::from(7u32);
    assert!(data.event().is_none());
    assert_eq!(*data.get(), 7);
    assert_eq!(data.data(), 7);
}

#[test]
fn logged_data_with_event() {
    let id = LogId::new("result_chain", "InnerError::First", LogLevel::Error);
    let event = FinalizedEvent { event_id: id, entry_id: 42 };
    let data: LoggedData<&str> = LoggedData::from(("inner", event));
    assert_eq!(data.event().map(|e| e.entry_id), Some(42));
    assert_eq!(data.event().map(|e| e.event_id), Some(id));
    assert_eq!(data.data(), "inner");
}
