pub mod crate_filter;
pub mod error_event;
pub mod event_entry;
pub mod filter;
pub mod intermediary_event;
pub mod msg;
