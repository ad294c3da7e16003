//! Module rules of the filter syntax: `<module path>[<log-ids>](<addons>) = <level>`.
use super::addon::{AddonFilter, FilterError, contains_addon};
use super::ids::{LogIdAddonFilter, LogIdAddonFilterView, id_matches, id_rules_view};
use crate::event::origin::Origin;
use crate::log_id::{LogId, LogIdView, LogLevel, level_le};
use crate::text::{
    chars_of, has_prefix, lower_eq, lower_equals, split_char, split_on, starts_with, string_of,
    trim, trimmed, vview,
};
use vstd::prelude::*;

verus! {

/// The level named by `s`, compared without regard to ASCII case: `error`, `warn`, `info`,
/// `debug`, and `trace` or `on` for [`LogLevel::Trace`].
pub open spec fn parse_level(s: Seq<char>) -> Option<LogLevel> {
    if lower_eq(s, seq!['e', 'r', 'r', 'o', 'r']) {
        Some(LogLevel::Error)
    } else if lower_eq(s, seq!['w', 'a', 'r', 'n']) {
        Some(LogLevel::Warn)
    } else if lower_eq(s, seq!['i', 'n', 'f', 'o']) {
        Some(LogLevel::Info)
    } else if lower_eq(s, seq!['d', 'e', 'b', 'u', 'g']) {
        Some(LogLevel::Debug)
    } else if lower_eq(s, seq!['t', 'r', 'a', 'c', 'e']) || lower_eq(s, seq!['o', 'n']) {
        Some(LogLevel::Trace)
    } else {
        None
    }
}

/// The keyword that names a level in the filter syntax.
pub open spec fn level_keyword(l: LogLevel) -> Seq<char> {
    match l {
        LogLevel::Error => seq!['e', 'r', 'r', 'o', 'r'],
        LogLevel::Warn => seq!['w', 'a', 'r', 'n'],
        LogLevel::Info => seq!['i', 'n', 'f', 'o'],
        LogLevel::Debug => seq!['d', 'e', 'b', 'u', 'g'],
        LogLevel::Trace => seq!['t', 'r', 'a', 'c', 'e'],
    }
}

/// The level named by `s` (see [`parse_level`]).
pub fn try_into_log_level(s: &Vec<char>) -> (r: Option<LogLevel>)
    ensures
        r == parse_level(s@),
{
    let error = vec!['e', 'r', 'r', 'o', 'r'];
    let warn = vec!['w', 'a', 'r', 'n'];
    let info = vec!['i', 'n', 'f', 'o'];
    let debug = vec!['d', 'e', 'b', 'u', 'g'];
    let trace = vec!['t', 'r', 'a', 'c', 'e'];
    let on = vec!['o', 'n'];
    proof {
        assert(error@ =~= seq!['e', 'r', 'r', 'o', 'r']);
        assert(warn@ =~= seq!['w', 'a', 'r', 'n']);
        assert(info@ =~= seq!['i', 'n', 'f', 'o']);
        assert(debug@ =~= seq!['d', 'e', 'b', 'u', 'g']);
        assert(trace@ =~= seq!['t', 'r', 'a', 'c', 'e']);
        assert(on@ =~= seq!['o', 'n']);
    }
    if lower_equals(s, &error) {
        Some(LogLevel::Error)
    } else if lower_equals(s, &warn) {
        Some(LogLevel::Warn)
    } else if lower_equals(s, &info) {
        Some(LogLevel::Info)
    } else if lower_equals(s, &debug) {
        Some(LogLevel::Debug)
    } else if lower_equals(s, &trace) || lower_equals(s, &on) {
        Some(LogLevel::Trace)
    } else {
        None
    }
}

/// Some rule of `ids` matches `id`.
pub open spec fn id_allowed(ids: Seq<LogIdAddonFilterView>, id: LogIdView) -> bool {
    exists|i: int| 0 <= i < ids.len() && id_matches(#[trigger] ids[i].log_id, id)
}

/// Some rule of `ids` matches `id` and allows `addon`.
pub open spec fn addon_allowed(
    ids: Seq<LogIdAddonFilterView>,
    id: LogIdView,
    addon: AddonFilter,
) -> bool {
    exists|i: int|
        0 <= i < ids.len() && id_matches(#[trigger] ids[i].log_id, id) && ids[i].addons.contains(
            addon,
        )
}

/// `ids` holds a rule that matches `id`.
pub fn id_allowed_exec(ids: &Vec<LogIdAddonFilter>, id: LogId) -> (r: bool)
    ensures
        r == id_allowed(id_rules_view(ids@), id@),
{
    let ghost v = id_rules_view(ids@);
    let mut i: usize = 0;
    while i < ids.len()
        invariant
            i <= ids.len() == v.len(),
            v == id_rules_view(ids@),
            forall|j: int| 0 <= j < i ==> !id_matches(#[trigger] v[j].log_id, id@),
        decreases ids.len() - i,
    {
        if *ids[i].get_log_id() == id {
            assert(id_matches(v[i as int].log_id, id@));
            return true;
        }
        i = i + 1;
    }
    false
}

/// `ids` holds a rule that matches `id` and allows `addon`.
pub fn addon_allowed_exec(ids: &Vec<LogIdAddonFilter>, id: LogId, addon: AddonFilter) -> (r: bool)
    ensures
        r == addon_allowed(id_rules_view(ids@), id@, addon),
{
    let ghost v = id_rules_view(ids@);
    let mut i: usize = 0;
    while i < ids.len()
        invariant
            i <= ids.len() == v.len(),
            v == id_rules_view(ids@),
            forall|j: int|
                0 <= j < i ==> !(id_matches(#[trigger] v[j].log_id, id@) && v[j].addons.contains(
                    addon,
                )),
        decreases ids.len() - i,
    {
        if *ids[i].get_log_id() == id && contains_addon(ids[i].get_allowed_addons(), addon) {
            assert(id_matches(v[i as int].log_id, id@) && v[i as int].addons.contains(addon));
            return true;
        }
        i = i + 1;
    }
    false
}

/// A rule for the events set in a module and its sub-modules.
#[derive(Default, Debug, Clone, PartialEq, Eq, PartialOrd, Ord)]
pub struct LogIdModuleFilter {
    no_general_logging: bool,
    origin_module: String,
    level: LogLevel,
    allowed_ids: Vec<LogIdAddonFilter>,
    allowed_addons: Vec<AddonFilter>,
}

/// The mathematical model of a [`LogIdModuleFilter`].
#[verifier::ext_equal]
pub struct LogIdModuleFilterView {
    pub no_general_logging: bool,
    pub origin_module: Seq<char>,
    pub level: LogLevel,
    pub ids: Seq<LogIdAddonFilterView>,
    pub addons: Seq<AddonFilter>,
}

impl View for LogIdModuleFilter {
    type V = LogIdModuleFilterView;

    closed spec fn view(&self) -> LogIdModuleFilterView {
        LogIdModuleFilterView {
            no_general_logging: self.no_general_logging,
            origin_module: self.origin_module@,
            level: self.level,
            ids: id_rules_view(self.allowed_ids@),
            addons: self.allowed_addons@,
        }
    }
}

/// The model of each element of `v`.
pub open spec fn module_rules_view(v: Seq<LogIdModuleFilter>) -> Seq<LogIdModuleFilterView> {
    v.map_values(|m: LogIdModuleFilter| m@)
}

/// The module rule written as `s`, with the log-id rules and addons already taken out of it.
///
/// `s` is `<module path>` or `<module path> = <level>`: the module path, trimmed, must not
/// be empty, and the level must be one of the level keywords. Without a level the module
/// allows no event by level, only by its log-id rules.
pub open spec fn parse_module(
    s: Seq<char>,
    ids: Seq<LogIdAddonFilterView>,
    addons: Seq<AddonFilter>,
) -> Option<LogIdModuleFilterView> {
    let parts = split_char(s, '=');
    if parts.len() != 1 && parts.len() != 2 {
        None
    } else if trim(parts[0]).len() == 0 {
        None
    } else if parts.len() == 1 {
        Some(
            LogIdModuleFilterView {
                no_general_logging: true,
                origin_module: trim(parts[0]),
                level: LogLevel::Debug,
                ids,
                addons,
            },
        )
    } else {
        match parse_level(trim(parts[1])) {
            Some(level) => Some(
                LogIdModuleFilterView {
                    no_general_logging: false,
                    origin_module: trim(parts[0]),
                    level,
                    ids,
                    addons,
                },
            ),
            None => None,
        }
    }
}

/// An event with log-id `id`, set in module `origin`, is allowed by the module rule `m`.
pub open spec fn module_event_allowed(m: LogIdModuleFilterView, id: LogIdView, origin: Seq<char>) -> bool {
    has_prefix(origin, m.origin_module) && ((!m.no_general_logging && level_le(m.level, id.level))
        || id_allowed(m.ids, id))
}

/// The addon `addon` of an event with log-id `id`, set in module `origin`, is allowed by the
/// module rule `m`.
pub open spec fn module_addon_allowed(
    m: LogIdModuleFilterView,
    id: LogIdView,
    origin: Seq<char>,
    addon: AddonFilter,
) -> bool {
    has_prefix(origin, m.origin_module) && ((!m.no_general_logging && level_le(m.level, id.level)
        && m.addons.contains(addon)) || addon_allowed(m.ids, id, addon))
}

impl LogIdModuleFilter {
    /// Parses the module rule `value`, with the log-ids `ids` and addons `addons` taken out
    /// of it before (see [`LogIdModuleFilter::from_chars`]).
    pub fn try_from(
        value: &str,
        ids: Vec<LogIdAddonFilter>,
        addons: Vec<AddonFilter>,
    ) -> (r: Result<Self, FilterError>)
        ensures
            match r {
                Ok(m) => parse_module(value@, id_rules_view(ids@), addons@) == Some(m@),
                Err(e) => parse_module(value@, id_rules_view(ids@), addons@) is None && (e matches FilterError::ParsingModule(
                    t,
                ) && t@ == value@),
            },
    {
        LogIdModuleFilter::from_chars(&chars_of(value), ids, addons)
    }

    /// Parses the module rule `s` (see [`parse_module`]); fails with
    /// [`FilterError::ParsingModule`] holding `s`.
    pub fn from_chars(
        s: &Vec<char>,
        ids: Vec<LogIdAddonFilter>,
        addons: Vec<AddonFilter>,
    ) -> (r: Result<Self, FilterError>)
        ensures
            match r {
                Ok(m) => parse_module(s@, id_rules_view(ids@), addons@) == Some(m@),
                Err(e) => parse_module(s@, id_rules_view(ids@), addons@) is None && (e matches FilterError::ParsingModule(
                    t,
                ) && t@ == s@),
            },
    {
        let parts = split_on(s, '=');
        let ghost pv = vview(parts@);
        let len = parts.len();
        if len != 1 && len != 2 {
            return Err(FilterError::ParsingModule(string_of(s)));
        }
        let module = trimmed(&parts[0]);
        if module.len() == 0 {
            return Err(FilterError::ParsingModule(string_of(s)));
        }
        if len == 1 {
            return Ok(
                LogIdModuleFilter {
                    no_general_logging: true,
                    origin_module: string_of(&module),
                    level: LogLevel::Debug,
                    allowed_ids: ids,
                    allowed_addons: addons,
                },
            );
        }
        let level_part = trimmed(&parts[1]);
        match try_into_log_level(&level_part) {
            Some(level) => Ok(
                LogIdModuleFilter {
                    no_general_logging: false,
                    origin_module: string_of(&module),
                    level,
                    allowed_ids: ids,
                    allowed_addons: addons,
                },
            ),
            None => Err(FilterError::ParsingModule(string_of(s))),
        }
    }

    /// The module path of `origin` begins with the module path of this rule.
    pub fn origin_in_module(&self, origin: &Origin) -> (r: bool)
        ensures
            r == has_prefix(origin@.module, self@.origin_module),
    {
        let o = chars_of(origin.module.as_str());
        let m = chars_of(self.origin_module.as_str());
        starts_with(&o, &m)
    }

    /// An event with log-id `id`, set at `origin`, is allowed by this rule.
    pub fn event_allowed(&self, id: LogId, origin: &Origin) -> (r: bool)
        ensures
            r == module_event_allowed(self@, id@, origin@.module),
    {
        if !self.origin_in_module(origin) {
            return false;
        }
        (!self.no_general_logging && self.level.at_most(id.get_log_level())) || id_allowed_exec(
            &self.allowed_ids,
            id,
        )
    }

    /// The addon `addon` of an event with log-id `id`, set at `origin`, is allowed by this rule.
    pub fn addon_allowed(&self, id: LogId, origin: &Origin, addon: &AddonFilter) -> (r: bool)
        ensures
            r == module_addon_allowed(self@, id@, origin@.module, *addon),
    {
        if !self.origin_in_module(origin) {
            return false;
        }
        (!self.no_general_logging && self.level.at_most(id.get_log_level()) && contains_addon(
            &self.allowed_addons,
            *addon,
        )) || addon_allowed_exec(&self.allowed_ids, id, *addon)
    }
}

} // verus!
