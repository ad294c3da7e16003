pub mod addon;
pub mod builders;
pub mod config;
pub mod ids;
pub mod laws;
pub mod log_filter;
pub mod module;

pub use addon::{AddonFilter, FilterError};
pub use builders::FilterConfigBuilder;
pub use config::FilterConfig;
pub use ids::{LogIdAddonFilter, LogIdFilter};
pub use log_filter::{LogFilter, allow_level, filter_config, set_filter};
pub use module::LogIdModuleFilter;
