//! The filter configuration: which events and which of their addons are logged.
use super::addon::{AddonFilter, contains_addon};
use super::ids::{LogIdAddonFilter, LogIdAddonFilterView, get_addons, get_ids, id_rules_view, spec_get_addons, spec_get_ids};
use super::module::{
    LogIdModuleFilter, LogIdModuleFilterView, addon_allowed, addon_allowed_exec, id_allowed,
    id_allowed_exec, module_addon_allowed, module_event_allowed, module_rules_view, parse_level,
    parse_module, try_into_log_level,
};
use crate::event::origin::Origin;
use crate::log_id::{LogId, LogIdView, LogLevel, level_le};
use crate::logging::event_entry::{AddonKind, LogEventEntry};
use crate::text::{
    chars_of, copy_range, has_prefix, is_blank, lower_eq, lower_equals, split_char, split_on,
    starts_with, trim, trimmed, vview,
};
use vstd::prelude::*;

verus! {

/// Which events, and which of their addons, are logged.
#[derive(Default, Debug)]
pub struct FilterConfig {
    pub(crate) no_general_logging: bool,
    pub(crate) general_level: LogLevel,
    pub(crate) general_addons: Vec<AddonFilter>,
    /// LogIds set with `on[LogId]`
    pub(crate) allowed_global_ids: Vec<LogIdAddonFilter>,
    pub(crate) allowed_modules: Vec<LogIdModuleFilter>,
}

/// The mathematical model of a [`FilterConfig`].
#[verifier::ext_equal]
pub struct FilterConfigView {
    pub no_general_logging: bool,
    pub general_level: LogLevel,
    pub general_addons: Seq<AddonFilter>,
    pub global_ids: Seq<LogIdAddonFilterView>,
    pub modules: Seq<LogIdModuleFilterView>,
}

impl View for FilterConfig {
    type V = FilterConfigView;

    closed spec fn view(&self) -> FilterConfigView {
        FilterConfigView {
            no_general_logging: self.no_general_logging,
            general_level: self.general_level,
            general_addons: self.general_addons@,
            global_ids: id_rules_view(self.allowed_global_ids@),
            modules: module_rules_view(self.allowed_modules@),
        }
    }
}

/// The configuration of the filter `off`: nothing is logged by level, no rule is set.
pub open spec fn off_config() -> FilterConfigView {
    FilterConfigView {
        no_general_logging: true,
        general_level: LogLevel::Debug,
        general_addons: Seq::empty(),
        global_ids: Seq::empty(),
        modules: Seq::empty(),
    }
}

/// The configuration the parts of a filter are read into.
pub open spec fn initial_config() -> FilterConfigView {
    FilterConfigView {
        no_general_logging: true,
        general_level: LogLevel::Error,
        general_addons: Seq::empty(),
        global_ids: Seq::empty(),
        modules: Seq::empty(),
    }
}

/// `c` after reading one comma-separated part of a filter.
///
/// The log-id part (`[...]`) is taken out first. Where what is left begins with `on` and
/// log-id rules were read, they are added as global log-id rules. Otherwise the addon part
/// (`(...)`) is taken out too: where the rest, trimmed, is a level keyword, it sets the
/// general level and addons; else, where it is a module rule, that rule is added. A part
/// that is neither changes nothing.
pub open spec fn config_step(c: FilterConfigView, part: Seq<char>) -> FilterConfigView {
    let (ids, s1) = spec_get_ids(part);
    if has_prefix(s1, seq!['o', 'n']) && ids.len() > 0 {
        FilterConfigView { global_ids: c.global_ids + ids, ..c }
    } else {
        let (addons, s2) = spec_get_addons(s1);
        match parse_level(trim(s2)) {
            Some(level) => FilterConfigView {
                no_general_logging: false,
                general_level: level,
                general_addons: addons,
                ..c
            },
            None => match parse_module(s2, ids, addons) {
                Some(m) => FilterConfigView { modules: c.modules.push(m), ..c },
                None => c,
            },
        }
    }
}

/// The configuration after reading `parts` in order.
pub open spec fn config_fold(parts: Seq<Seq<char>>) -> FilterConfigView
    decreases parts.len(),
{
    if parts.len() == 0 {
        initial_config()
    } else {
        config_step(config_fold(parts.drop_last()), parts.last())
    }
}

/// The configuration that the filter text `s` describes.
///
/// A blank filter, or `off` in any ASCII case, is [`off_config`]; any other filter is read
/// part by part, parts being separated by `,` (see [`config_step`]).
pub open spec fn parse_filter_config(s: Seq<char>) -> FilterConfigView {
    if trim(s).len() == 0 || lower_eq(s, seq!['o', 'f', 'f']) {
        off_config()
    } else {
        config_fold(split_char(s, ','))
    }
}

/// The module path of the event handler, whose events every filter allows.
pub open spec fn handler_module() -> Seq<char> {
    seq!['l', 'o', 'g', 'i', 'd', ':', ':', 'e', 'v', 'e', 'n', 't', '_', 'h', 'a', 'n', 'd', 'l', 'e', 'r']
}

/// The configuration `c` allows an event with log-id `id` set in module `origin`.
pub open spec fn config_allows_entry(c: FilterConfigView, id: LogIdView, origin: Seq<char>) -> bool {
    ||| has_prefix(origin, handler_module())
    ||| (!c.no_general_logging && level_le(c.general_level, id.level))
    ||| id_allowed(c.global_ids, id)
    ||| exists|i: int| 0 <= i < c.modules.len() && module_event_allowed(#[trigger] c.modules[i], id, origin)
}

/// The configuration `c` allows the addon `addon` of an event with log-id `id` set in module
/// `origin`.
pub open spec fn config_allows_addon(
    c: FilterConfigView,
    id: LogIdView,
    origin: Seq<char>,
    addon: AddonFilter,
) -> bool {
    ||| (!c.no_general_logging && c.general_addons.contains(addon))
    ||| addon_allowed(c.global_ids, id, addon)
    ||| exists|i: int| 0 <= i < c.modules.len() && module_addon_allowed(#[trigger] c.modules[i], id, origin, addon)
}

/// The addon kind an addon belongs to.
pub open spec fn addon_kind_filter(k: AddonKind) -> AddonFilter {
    match k {
        AddonKind::Info(_) => AddonFilter::Infos,
        AddonKind::Debug(_) => AddonFilter::Debugs,
        AddonKind::Trace(_) => AddonFilter::Traces,
        AddonKind::Related(_) => AddonFilter::Related,
        AddonKind::Hint(_) => AddonFilter::Hint,
        AddonKind::Note(_) => AddonFilter::Note,
        AddonKind::Diagnostic(_) => AddonFilter::Diagnostics,
        AddonKind::Payload(_) => AddonFilter::Payloads,
    }
}

impl AddonFilter {
    /// The addon kind `value` belongs to.
    pub fn from(value: &AddonKind) -> (r: AddonFilter)
        ensures
            r == addon_kind_filter(*value),
    {
        match value {
            AddonKind::Info(_) => AddonFilter::Infos,
            AddonKind::Debug(_) => AddonFilter::Debugs,
            AddonKind::Trace(_) => AddonFilter::Traces,
            AddonKind::Related(_) => AddonFilter::Related,
            AddonKind::Hint(_) => AddonFilter::Hint,
            AddonKind::Note(_) => AddonFilter::Note,
            AddonKind::Diagnostic(_) => AddonFilter::Diagnostics,
            AddonKind::Payload(_) => AddonFilter::Payloads,
        }
    }
}

fn id_allowed_in_origin(modules: &Vec<LogIdModuleFilter>, id: LogId, origin: &Origin) -> (r: bool)
    ensures
        r == exists|i: int|
            0 <= i < module_rules_view(modules@).len() && module_event_allowed(
                #[trigger] module_rules_view(modules@)[i],
                id@,
                origin@.module,
            ),
{
    let ghost v = module_rules_view(modules@);
    let mut i: usize = 0;
    while i < modules.len()
        invariant
            i <= modules.len() == v.len(),
            v == module_rules_view(modules@),
            forall|j: int| 0 <= j < i ==> !module_event_allowed(#[trigger] v[j], id@, origin@.module),
        decreases modules.len() - i,
    {
        if modules[i].event_allowed(id, origin) {
            assert(module_event_allowed(v[i as int], id@, origin@.module));
            return true;
        }
        i = i + 1;
    }
    false
}

fn addon_allowed_in_origin(
    modules: &Vec<LogIdModuleFilter>,
    id: LogId,
    origin: &Origin,
    addon: &AddonFilter,
) -> (r: bool)
    ensures
        r == exists|i: int|
            0 <= i < module_rules_view(modules@).len() && module_addon_allowed(
                #[trigger] module_rules_view(modules@)[i],
                id@,
                origin@.module,
                *addon,
            ),
{
    let ghost v = module_rules_view(modules@);
    let mut i: usize = 0;
    while i < modules.len()
        invariant
            i <= modules.len() == v.len(),
            v == module_rules_view(modules@),
            forall|j: int|
                0 <= j < i ==> !module_addon_allowed(#[trigger] v[j], id@, origin@.module, *addon),
        decreases modules.len() - i,
    {
        if modules[i].addon_allowed(id, origin, addon) {
            assert(module_addon_allowed(v[i as int], id@, origin@.module, *addon));
            return true;
        }
        i = i + 1;
    }
    false
}

impl FilterConfig {
    /// The configuration that the filter text `filter` describes (see [`parse_filter_config`]).
    pub fn new(filter: &str) -> (r: Self)
        ensures
            r@ == parse_filter_config(filter@),
    {
        let v = chars_of(filter);
        let off = vec!['o', 'f', 'f'];
        assert(off@ =~= seq!['o', 'f', 'f']);
        if is_blank(&v) || lower_equals(&v, &off) {
            let r = FilterConfig {
                no_general_logging: true,
                general_level: LogLevel::Debug,
                general_addons: Vec::new(),
                allowed_global_ids: Vec::new(),
                allowed_modules: Vec::new(),
            };
            assert(r@ =~= off_config());
            return r;
        }
        let mut log_filter = FilterConfig {
            no_general_logging: true,
            general_level: LogLevel::Error,
            general_addons: Vec::new(),
            allowed_global_ids: Vec::new(),
            allowed_modules: Vec::new(),
        };
        let parts = split_on(&v, ',');
        let ghost pv = vview(parts@);
        assert(log_filter@ =~= initial_config());
        assert(pv.take(0) =~= Seq::<Seq<char>>::empty());
        let on = vec!['o', 'n'];
        assert(on@ =~= seq!['o', 'n']);
        let mut i: usize = 0;
        while i < parts.len()
            invariant
                i <= parts.len() == pv.len(),
                pv == vview(parts@),
                on@ == seq!['o', 'n'],
                log_filter@ == config_fold(pv.take(i as int)),
            decreases parts.len() - i,
        {
            assert(pv.take(i + 1).drop_last() =~= pv.take(i as int));
            assert(pv.take(i + 1).last() == pv[i as int]);
            let ghost before = log_filter@;
            let mut stripped = copy_range(&parts[i], 0, parts[i].len());
            assert(stripped@ =~= pv[i as int]);
            let mut ids = get_ids(&mut stripped);
            if starts_with(&stripped, &on) && ids.len() > 0 {
                let ghost added = id_rules_view(ids@);
                let ghost old_ids = log_filter.allowed_global_ids@;
                log_filter.allowed_global_ids.append(&mut ids);
                assert(id_rules_view(log_filter.allowed_global_ids@) =~= id_rules_view(old_ids) + added);
                assert(log_filter@ =~= config_step(before, pv[i as int]));
            } else {
                let ghost s1 = stripped@;
                let addons = get_addons(&mut stripped);
                let level_part = trimmed(&stripped);
                match try_into_log_level(&level_part) {
                    Some(general_level) => {
                        log_filter.no_general_logging = false;
                        log_filter.general_level = general_level;
                        log_filter.general_addons = addons;
                        assert(log_filter@ =~= config_step(before, pv[i as int]));
                    },
                    None => {
                        match LogIdModuleFilter::from_chars(&stripped, ids, addons) {
                            Ok(module_filter) => {
                                let ghost old_modules = log_filter.allowed_modules@;
                                log_filter.allowed_modules.push(module_filter);
                                assert(module_rules_view(log_filter.allowed_modules@)
                                    =~= module_rules_view(old_modules).push(module_filter@));
                                assert(log_filter@ =~= config_step(before, pv[i as int]));
                            },
                            Err(_) => {
                                assert(log_filter@ =~= config_step(before, pv[i as int]));
                            },
                        }
                    },
                }
            }
            i = i + 1;
        }
        assert(pv.take(pv.len() as int) =~= pv);
        log_filter
    }

    /// The configuration with the given parts.
    pub(crate) fn from_parts(
        no_general_logging: bool,
        general_level: LogLevel,
        general_addons: Vec<AddonFilter>,
        allowed_global_ids: Vec<LogIdAddonFilter>,
        allowed_modules: Vec<LogIdModuleFilter>,
    ) -> (r: Self)
        ensures
            r@ == (FilterConfigView {
                no_general_logging,
                general_level,
                general_addons: general_addons@,
                global_ids: id_rules_view(allowed_global_ids@),
                modules: module_rules_view(allowed_modules@),
            }),
    {
        FilterConfig {
            no_general_logging,
            general_level,
            general_addons,
            allowed_global_ids,
            allowed_modules,
        }
    }

    /// Replaces this configuration by `other`.
    pub(crate) fn replace(&mut self, other: Self)
        ensures
            final(self)@ == other@,
    {
        self.allowed_global_ids = other.allowed_global_ids;
        self.allowed_modules = other.allowed_modules;
        self.general_addons = other.general_addons;
        self.general_level = other.general_level;
        self.no_general_logging = other.no_general_logging;
    }

    /// The addon kind `addon_filter` of an event with log-id `id`, set at `origin`, is allowed.
    pub fn allow_addon_filter(&self, id: LogId, origin: &Origin, addon_filter: AddonFilter) -> (r: bool)
        ensures
            r == config_allows_addon(self@, id@, origin@.module, addon_filter),
    {
        if !self.no_general_logging && contains_addon(&self.general_addons, addon_filter) {
            return true;
        }
        let by_id = addon_allowed_exec(&self.allowed_global_ids, id, addon_filter);
        let by_module = addon_allowed_in_origin(&self.allowed_modules, id, origin, &addon_filter);
        assert(self@.modules == module_rules_view(self.allowed_modules@));
        assert(by_module == exists|i: int| 0 <= i < self@.modules.len() && module_addon_allowed(#[trigger] self@.modules[i], id@, origin@.module, addon_filter));
        by_id || by_module
    }

    /// The addon `addon` of an event with log-id `id`, set at `origin`, is allowed.
    pub fn allow_addon(&self, id: LogId, origin: &Origin, addon: &AddonKind) -> (r: bool)
        ensures
            r == config_allows_addon(self@, id@, origin@.module, addon_kind_filter(*addon)),
    {
        let addon_filter = AddonFilter::from(addon);
        self.allow_addon_filter(id, origin, addon_filter)
    }

    /// The origin of an event with log-id `id`, set at `origin`, is shown.
    pub fn show_origin_info(&self, id: LogId, origin: &Origin) -> (r: bool)
        ensures
            r == config_allows_addon(self@, id@, origin@.module, AddonFilter::Origin),
    {
        self.allow_addon_filter(id, origin, AddonFilter::Origin)
    }

    /// The log-id and entry id of an event with log-id `id`, set at `origin`, are shown.
    pub fn show_id(&self, id: LogId, origin: &Origin) -> (r: bool)
        ensures
            r == config_allows_addon(self@, id@, origin@.module, AddonFilter::Id),
    {
        self.allow_addon_filter(id, origin, AddonFilter::Id)
    }

    /// An event with log-id `id`, set at `origin`, is allowed.
    pub fn allow_event(&self, id: LogId, origin: &Origin) -> (r: bool)
        ensures
            r == config_allows_entry(self@, id@, origin@.module),
    {
        let handler = vec!['l', 'o', 'g', 'i', 'd', ':', ':', 'e', 'v', 'e', 'n', 't', '_', 'h', 'a', 'n', 'd', 'l', 'e', 'r'];
        assert(handler@ =~= handler_module());
        let module = chars_of(origin.module.as_str());
        if starts_with(&module, &handler) {
            return true;
        }
        if !self.no_general_logging && self.general_level.at_most(id.get_log_level()) {
            return true;
        }
        let by_id = id_allowed_exec(&self.allowed_global_ids, id);
        let by_module = id_allowed_in_origin(&self.allowed_modules, id, origin);
        assert(self@.modules == module_rules_view(self.allowed_modules@));
        assert(by_module == exists|i: int| 0 <= i < self@.modules.len() && module_event_allowed(#[trigger] self@.modules[i], id@, origin@.module));
        by_id || by_module
    }

    /// The event whose entry is `entry` is allowed.
    pub fn allow_entry(&self, entry: &LogEventEntry) -> (r: bool)
        ensures
            r == config_allows_entry(self@, entry@.event_id, entry@.origin.module),
    {
        self.allow_event(entry.get_event_id(), entry.get_origin())
    }
}

} // verus!
