//! Building a [`FilterConfig`] step by step.
use super::addon::AddonFilter;
use super::config::{FilterConfig, FilterConfigView};
use super::ids::{LogIdAddonFilter, id_rules_view};
use super::module::{LogIdModuleFilter, module_rules_view};
use crate::log_id::LogLevel;
use vstd::prelude::*;

verus! {

/// Builder for [`FilterConfig`].
#[derive(Default, Debug, Clone, PartialEq, Eq, PartialOrd, Ord)]
pub struct FilterConfigBuilder {
    logging_enabled: bool,
    general_level: LogLevel,
    general_addons: Vec<AddonFilter>,
    /// LogIds set with `on[LogId]`
    allowed_global_ids: Vec<LogIdAddonFilter>,
    allowed_modules: Vec<LogIdModuleFilter>,
}

/// The mathematical model of a [`FilterConfigBuilder`]: whether logging by level is enabled,
/// and the configuration built so far.
#[verifier::ext_equal]
pub struct FilterConfigBuilderView {
    pub logging_enabled: bool,
    pub general_level: LogLevel,
    pub general_addons: Seq<AddonFilter>,
    pub global_ids: Seq<super::ids::LogIdAddonFilterView>,
    pub modules: Seq<super::module::LogIdModuleFilterView>,
}

impl View for FilterConfigBuilder {
    type V = FilterConfigBuilderView;

    closed spec fn view(&self) -> FilterConfigBuilderView {
        FilterConfigBuilderView {
            logging_enabled: self.logging_enabled,
            general_level: self.general_level,
            general_addons: self.general_addons@,
            global_ids: id_rules_view(self.allowed_global_ids@),
            modules: module_rules_view(self.allowed_modules@),
        }
    }
}

/// The configuration a builder in state `b` builds.
pub open spec fn built_config(b: FilterConfigBuilderView) -> FilterConfigView {
    FilterConfigView {
        no_general_logging: !b.logging_enabled,
        general_level: b.general_level,
        general_addons: b.general_addons,
        global_ids: b.global_ids,
        modules: b.modules,
    }
}

impl FilterConfigBuilder {
    /// Creates a new builder for [`FilterConfig`] with general level `level`; logging by
    /// level is enabled until [`FilterConfigBuilder::disabled_logging`] is called, and no
    /// addons or rules are set.
    pub fn new(level: LogLevel) -> (r: Self)
        ensures
            r@ == (FilterConfigBuilderView {
                logging_enabled: true,
                general_level: level,
                general_addons: Seq::empty(),
                global_ids: Seq::empty(),
                modules: Seq::empty(),
            }),
    {
        let r = Self {
            logging_enabled: true,
            general_level: level,
            general_addons: Vec::new(),
            allowed_global_ids: Vec::new(),
            allowed_modules: Vec::new(),
        };
        assert(id_rules_view(r.allowed_global_ids@) =~= Seq::empty());
        assert(module_rules_view(r.allowed_modules@) =~= Seq::empty());
        r
    }

    /// Disable logging in general.
    pub fn disabled_logging(self) -> (r: Self)
        ensures
            r@ == (FilterConfigBuilderView { logging_enabled: false, ..self@ }),
    {
        let mut s = self;
        s.logging_enabled = false;
        s
    }

    /// Add addons allowed by the filter.
    pub fn allowed_addons(self, addons: Vec<AddonFilter>) -> (r: Self)
        ensures
            r@ == (FilterConfigBuilderView { general_addons: self@.general_addons + addons@, ..self@ }),
    {
        let mut s = self;
        let mut addons = addons;
        s.general_addons.append(&mut addons);
        s
    }

    /// Add LogIDs allowed by the filter.
    pub fn global_ids(self, global_ids: Vec<LogIdAddonFilter>) -> (r: Self)
        ensures
            r@ == (FilterConfigBuilderView {
                global_ids: self@.global_ids + id_rules_view(global_ids@),
                ..self@
            }),
    {
        let mut s = self;
        let mut ids = global_ids;
        let ghost before = s.allowed_global_ids@;
        let ghost added = ids@;
        s.allowed_global_ids.append(&mut ids);
        assert(id_rules_view(s.allowed_global_ids@) =~= id_rules_view(before) + id_rules_view(added));
        s
    }

    /// Add modules allowed by the filter.
    pub fn modules(self, modules: Vec<LogIdModuleFilter>) -> (r: Self)
        ensures
            r@ == (FilterConfigBuilderView {
                modules: self@.modules + module_rules_view(modules@),
                ..self@
            }),
    {
        let mut s = self;
        let mut m = modules;
        let ghost before = s.allowed_modules@;
        let ghost added = m@;
        s.allowed_modules.append(&mut m);
        assert(module_rules_view(s.allowed_modules@) =~= module_rules_view(before) + module_rules_view(added));
        s
    }

    /// Build [`FilterConfig`] with configuration constructed using the builder.
    pub fn build(self) -> (r: FilterConfig)
        ensures
            r@ == built_config(self@),
    {
        FilterConfig::from_parts(
            !self.logging_enabled,
            self.general_level,
            self.general_addons,
            self.allowed_global_ids,
            self.allowed_modules,
        )
    }
}

impl FilterConfig {
    /// A builder for a configuration with general level [`LogLevel::Error`], logging by level
    /// enabled.
    pub fn builder() -> (r: FilterConfigBuilder)
        ensures
            r@ == (FilterConfigBuilderView {
                logging_enabled: true,
                general_level: LogLevel::Error,
                general_addons: Seq::empty(),
                global_ids: Seq::empty(),
                modules: Seq::empty(),
            }),
    {
        FilterConfigBuilder::new(LogLevel::Error)
    }

    /// The configuration that logs by the general level `level`, with general addons `addons`.
    pub fn from_level_and_addons(level: LogLevel, addons: Vec<AddonFilter>) -> (r: FilterConfig)
        ensures
            r@ == (FilterConfigView {
                no_general_logging: false,
                general_level: level,
                general_addons: addons@,
                global_ids: Seq::empty(),
                modules: Seq::empty(),
            }),
    {
        FilterConfigBuilder::new(level).allowed_addons(addons).build()
    }
}

} // verus!
