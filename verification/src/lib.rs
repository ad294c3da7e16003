pub mod log_id;
pub mod text;
pub mod layout;
pub mod event;
pub mod event_handler;
pub mod logging;
pub mod terminal;
pub mod result;
pub mod publisher;
pub mod derived_ids;
