//! The filter the logger applies: a configuration, and the levels this build logs at all.
//!
//! This library leaves debug and trace events, and debug and trace addons, out whatever the
//! configuration: only events of level info and above, with their other addons, pass the
//! logger's filter.
use super::addon::{AddonFilter, FilterError};
use super::config::{FilterConfig, FilterConfigView, addon_kind_filter, config_allows_addon, config_allows_entry};
use crate::event::origin::Origin;
use crate::log_id::{LogId, LogLevel, rank};
use crate::logging::event_entry::{AddonKind, LogEventEntry};
use vstd::prelude::*;

verus! {

/// Events of `level` are logged at all: debug and trace events are left out before any
/// filter rule is looked at.
pub open spec fn level_enabled(level: LogLevel) -> bool {
    rank(level) > rank(LogLevel::Debug)
}

/// The levels this build logs at are exactly info, warn and error: debug and trace events
/// are cut, every other event goes on to the filter's rules.
pub proof fn lemma_level_gate(level: LogLevel)
    ensures
        level_enabled(level) == (level == LogLevel::Info || level == LogLevel::Warn || level
            == LogLevel::Error),
{
}

/// Returns `true` if logid is configured to allow the given level.
///
/// Without using this function as early filter return, debug and trace logs would mostly go
/// through all filter steps, which decreases performance.
pub fn allow_level(level: LogLevel) -> (r: bool)
    ensures
        r == level_enabled(level),
{
    !level.at_most(LogLevel::Debug)
}

/// The filter `c` allows the addon `addon` of an event with log-id `id` set in module `origin`,
/// taking the levels this build logs at into account.
pub open spec fn filter_allows_addon(
    c: FilterConfigView,
    id: crate::log_id::LogIdView,
    origin: Seq<char>,
    addon: AddonKind,
) -> bool {
    &&& level_enabled(id.level)
    &&& !(addon_kind_filter(addon) == AddonFilter::Debugs && !level_enabled(LogLevel::Debug))
    &&& !(addon_kind_filter(addon) == AddonFilter::Traces && !level_enabled(LogLevel::Trace))
    &&& config_allows_addon(c, id, origin, addon_kind_filter(addon))
}

/// The filter text used where none is configured: the configured text where there is one,
/// `error` otherwise.
pub fn filter_config(configured: Option<String>) -> (r: String)
    ensures
        r@ == match configured {
            Some(c) => c@,
            None => seq!['e', 'r', 'r', 'o', 'r'],
        },
{
    match configured {
        Some(config) => config,
        None => {
            let r = "error".to_owned();
            proof {
                reveal_strlit("error");
            }
            r
        },
    }
}

/// The filter of the logger.
#[derive(Default, Debug)]
pub struct LogFilter {
    filter: FilterConfig,
}

impl View for LogFilter {
    type V = FilterConfigView;

    closed spec fn view(&self) -> FilterConfigView {
        self.filter@
    }
}

impl LogFilter {
    /// A filter with the configuration that the filter text `filter_config` describes.
    pub fn new(filter_config: &str) -> (r: Self)
        ensures
            r@ == super::config::parse_filter_config(filter_config@),
    {
        LogFilter { filter: FilterConfig::new(filter_config) }
    }

    /// Replaces the configuration of this filter by `filter_config`.
    pub fn set_filter(&mut self, filter_config: FilterConfig) -> (r: Result<(), FilterError>)
        ensures
            r is Ok,
            final(self)@ == filter_config@,
    {
        self.filter.replace(filter_config);
        Ok(())
    }

    /// The configuration of this filter.
    pub fn get_config(&self) -> (r: &FilterConfig)
        ensures
            r@ == self@,
    {
        &self.filter
    }

    /// The addon `addon` of an event with log-id `id`, set at `origin`, is logged.
    pub fn allow_addon(&self, id: LogId, origin: &Origin, addon: &AddonKind) -> (r: bool)
        ensures
            r == filter_allows_addon(self@, id@, origin@.module, *addon),
    {
        if !allow_level(id.get_log_level()) {
            return false;
        } else {
            let addon_filter = AddonFilter::from(addon);
            if addon_filter == AddonFilter::Debugs && !allow_level(LogLevel::Debug)
                || addon_filter == AddonFilter::Traces && !allow_level(LogLevel::Trace) {
                return false;
            }
        }
        self.filter.allow_addon(id, origin, addon)
    }

    /// The origin of an event with log-id `id`, set at `origin`, is shown.
    pub fn show_origin_info(&self, id: LogId, origin: &Origin) -> (r: bool)
        ensures
            r == config_allows_addon(self@, id@, origin@.module, AddonFilter::Origin),
    {
        self.filter.show_origin_info(id, origin)
    }

    /// The log-id and entry id of an event with log-id `id`, set at `origin`, are shown.
    pub fn show_id(&self, id: LogId, origin: &Origin) -> (r: bool)
        ensures
            r == config_allows_addon(self@, id@, origin@.module, AddonFilter::Id),
    {
        self.filter.show_id(id, origin)
    }

    /// The event whose entry is `entry` is logged.
    pub fn allow_entry(&self, entry: &LogEventEntry) -> (r: bool)
        ensures
            r == (level_enabled(entry@.event_id.level) && config_allows_entry(
                self@,
                entry@.event_id,
                entry@.origin.module,
            )),
    {
        if !allow_level(entry.get_level()) {
            return false;
        }
        self.filter.allow_entry(entry)
    }
}

/// Sets `into_filter` as the configuration of the logger's filter `filter`; fails with
/// [`FilterError::SettingFilter`] where the logger has no filter.
pub fn set_filter(filter: Option<&mut LogFilter>, into_filter: FilterConfig) -> (r: Result<(), FilterError>)
    ensures
        match filter {
            Some(f) => r is Ok && final(f)@ == into_filter@,
            None => r matches Err(FilterError::SettingFilter),
        },
{
    match filter {
        Some(f) => f.set_filter(into_filter),
        None => Err(FilterError::SettingFilter),
    }
}

} // verus!
