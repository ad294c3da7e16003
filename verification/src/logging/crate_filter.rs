//! A filter whose rules name the crate of a log-id and of an event's origin explicitly.
//!
//! Log-id rules are written `<crate>::<identifier>` or `<crate>::<module path>::<identifier>`,
//! module rules `<crate>` or `<crate>::<module path>`, each optionally followed by
//! `= <level>`. The filter text is read as by [`crate::logging::filter::FilterConfig::new`],
//! part by part.
use crate::event::origin::Origin;
use crate::log_id::{LogId, LogIdView, LogLevel, level_le};
use crate::logging::event_entry::AddonKind;
use crate::logging::filter::addon::FilterError;
use crate::logging::filter::module::{parse_level, try_into_log_level};
use crate::log_id::append_chars;
use crate::text::{
    chars_eq, chars_of, copy_range, cut_range, find_char, find_path_sep, first_index,
    first_path_sep, has_prefix, is_blank, join_path, lower_eq, lower_equals, split_char,
    split_on, split_on_path, split_path, starts_with, string_of, trim, trimmed, vview,
};
use vstd::prelude::*;

verus! {

/// The kinds of additional information a crate filter may allow for an event.
#[derive(Debug, Clone, Copy, PartialEq, Eq, Structural)]
pub enum AddonFilter {
    Infos,
    Debugs,
    Traces,
    Origin,
    Related,
    AllAllowed,
    Diagnostics,
    Payloads,
}

impl Default for AddonFilter {
    fn default() -> (r: Self)
        ensures
            r == AddonFilter::Infos,
    {
        AddonFilter::Infos
    }
}

/// The keyword that names an addon kind.
pub open spec fn addon_keyword(a: AddonFilter) -> Seq<char> {
    match a {
        AddonFilter::Infos => seq!['i', 'n', 'f', 'o', 's'],
        AddonFilter::Debugs => seq!['d', 'e', 'b', 'u', 'g', 's'],
        AddonFilter::Traces => seq!['t', 'r', 'a', 'c', 'e', 's'],
        AddonFilter::Origin => seq!['o', 'r', 'i', 'g', 'i', 'n'],
        AddonFilter::Related => seq!['r', 'e', 'l', 'a', 't', 'e', 'd'],
        AddonFilter::AllAllowed => seq!['a', 'l', 'l'],
        AddonFilter::Diagnostics => seq!['d', 'i', 'a', 'g', 'n', 'o', 's', 't', 'i', 'c', 's'],
        AddonFilter::Payloads => seq!['p', 'a', 'y', 'l', 'o', 'a', 'd', 's'],
    }
}

/// The addon kind named by `s`, if any: the keyword must match exactly.
pub open spec fn parse_addon(s: Seq<char>) -> Option<AddonFilter> {
    if s == addon_keyword(AddonFilter::Infos) {
        Some(AddonFilter::Infos)
    } else if s == addon_keyword(AddonFilter::Debugs) {
        Some(AddonFilter::Debugs)
    } else if s == addon_keyword(AddonFilter::Traces) {
        Some(AddonFilter::Traces)
    } else if s == addon_keyword(AddonFilter::Origin) {
        Some(AddonFilter::Origin)
    } else if s == addon_keyword(AddonFilter::Related) {
        Some(AddonFilter::Related)
    } else if s == addon_keyword(AddonFilter::AllAllowed) {
        Some(AddonFilter::AllAllowed)
    } else if s == addon_keyword(AddonFilter::Diagnostics) {
        Some(AddonFilter::Diagnostics)
    } else if s == addon_keyword(AddonFilter::Payloads) {
        Some(AddonFilter::Payloads)
    } else {
        None
    }
}

/// The addon kinds that `all` stands for, in the order they are added.
pub open spec fn all_addons() -> Seq<AddonFilter> {
    seq![
        AddonFilter::Infos,
        AddonFilter::Debugs,
        AddonFilter::Traces,
        AddonFilter::Origin,
        AddonFilter::Related,
        AddonFilter::Diagnostics,
        AddonFilter::Payloads,
    ]
}

/// The addon kind an addon belongs to; hints and notes belong to none.
pub open spec fn addon_kind_filter(k: AddonKind) -> Option<AddonFilter> {
    match k {
        AddonKind::Info(_) => Some(AddonFilter::Infos),
        AddonKind::Debug(_) => Some(AddonFilter::Debugs),
        AddonKind::Trace(_) => Some(AddonFilter::Traces),
        AddonKind::Related(_) => Some(AddonFilter::Related),
        AddonKind::Diagnostic(_) => Some(AddonFilter::Diagnostics),
        AddonKind::Payload(_) => Some(AddonFilter::Payloads),
        AddonKind::Hint(_) => None,
        AddonKind::Note(_) => None,
    }
}

fn keyword(a: AddonFilter) -> (r: Vec<char>)
    ensures
        r@ == addon_keyword(a),
{
    let r = match a {
        AddonFilter::Infos => vec!['i', 'n', 'f', 'o', 's'],
        AddonFilter::Debugs => vec!['d', 'e', 'b', 'u', 'g', 's'],
        AddonFilter::Traces => vec!['t', 'r', 'a', 'c', 'e', 's'],
        AddonFilter::Origin => vec!['o', 'r', 'i', 'g', 'i', 'n'],
        AddonFilter::Related => vec!['r', 'e', 'l', 'a', 't', 'e', 'd'],
        AddonFilter::AllAllowed => vec!['a', 'l', 'l'],
        AddonFilter::Diagnostics => vec!['d', 'i', 'a', 'g', 'n', 'o', 's', 't', 'i', 'c', 's'],
        AddonFilter::Payloads => vec!['p', 'a', 'y', 'l', 'o', 'a', 'd', 's'],
    };
    proof {
        assert(r@ =~= addon_keyword(a));
    }
    r
}

fn addon_of_chars(s: &Vec<char>) -> (r: Option<AddonFilter>)
    ensures
        r == parse_addon(s@),
{
    if chars_eq(s, &keyword(AddonFilter::Infos)) {
        Some(AddonFilter::Infos)
    } else if chars_eq(s, &keyword(AddonFilter::Debugs)) {
        Some(AddonFilter::Debugs)
    } else if chars_eq(s, &keyword(AddonFilter::Traces)) {
        Some(AddonFilter::Traces)
    } else if chars_eq(s, &keyword(AddonFilter::Origin)) {
        Some(AddonFilter::Origin)
    } else if chars_eq(s, &keyword(AddonFilter::Related)) {
        Some(AddonFilter::Related)
    } else if chars_eq(s, &keyword(AddonFilter::AllAllowed)) {
        Some(AddonFilter::AllAllowed)
    } else if chars_eq(s, &keyword(AddonFilter::Diagnostics)) {
        Some(AddonFilter::Diagnostics)
    } else if chars_eq(s, &keyword(AddonFilter::Payloads)) {
        Some(AddonFilter::Payloads)
    } else {
        None
    }
}

impl AddonFilter {
    /// Parses the keyword `value` of an addon kind; fails with
    /// [`FilterError::ParsingAddons`] holding `value` where it names none.
    pub fn try_from(value: &str) -> (r: Result<AddonFilter, FilterError>)
        ensures
            match r {
                Ok(a) => parse_addon(value@) == Some(a),
                Err(e) => parse_addon(value@) is None && (e matches FilterError::ParsingAddons(
                    m,
                ) && m@ == value@),
            },
    {
        let v = chars_of(value);
        match addon_of_chars(&v) {
            Some(a) => Ok(a),
            None => Err(FilterError::ParsingAddons(value.to_owned())),
        }
    }

    /// The addon kind `value` belongs to, if any (see [`addon_kind_filter`]).
    pub fn from(value: &AddonKind) -> (r: Option<AddonFilter>)
        ensures
            r == addon_kind_filter(*value),
    {
        match value {
            AddonKind::Info(_) => Some(AddonFilter::Infos),
            AddonKind::Debug(_) => Some(AddonFilter::Debugs),
            AddonKind::Trace(_) => Some(AddonFilter::Traces),
            AddonKind::Related(_) => Some(AddonFilter::Related),
            AddonKind::Diagnostic(_) => Some(AddonFilter::Diagnostics),
            AddonKind::Payload(_) => Some(AddonFilter::Payloads),
            AddonKind::Hint(_) => None,
            AddonKind::Note(_) => None,
        }
    }
}

fn push_addon(addons: &mut Vec<AddonFilter>, a: AddonFilter)
    ensures
        final(addons)@ == (if a == AddonFilter::AllAllowed {
            old(addons)@ + all_addons()
        } else {
            old(addons)@.push(a)
        }),
{
    if a == AddonFilter::AllAllowed {
        addons.push(AddonFilter::Infos);
        addons.push(AddonFilter::Debugs);
        addons.push(AddonFilter::Traces);
        addons.push(AddonFilter::Origin);
        addons.push(AddonFilter::Related);
        addons.push(AddonFilter::Diagnostics);
        addons.push(AddonFilter::Payloads);
        assert(addons@ =~= old(addons)@ + all_addons());
    } else {
        addons.push(a);
    }
}

fn contains_addon(addons: &Vec<AddonFilter>, a: AddonFilter) -> (r: bool)
    ensures
        r == addons@.contains(a),
{
    let mut i: usize = 0;
    while i < addons.len()
        invariant
            i <= addons.len(),
            forall|j: int| 0 <= j < i ==> addons@[j] != a,
        decreases addons.len() - i,
    {
        if addons[i] == a {
            assert(addons@[i as int] == a);
            return true;
        }
        i = i + 1;
    }
    false
}

/// A rule that matches log-ids by crate, module path and identifier.
#[derive(Default, Debug, Clone)]
pub struct LogIdFilter {
    crate_name: String,
    module: String,
    identifier: String,
}

/// The mathematical model of a [`LogIdFilter`].
#[verifier::ext_equal]
pub struct LogIdFilterView {
    pub crate_name: Seq<char>,
    pub module: Seq<char>,
    pub identifier: Seq<char>,
}

impl View for LogIdFilter {
    type V = LogIdFilterView;

    closed spec fn view(&self) -> LogIdFilterView {
        LogIdFilterView {
            crate_name: self.crate_name@,
            module: self.module@,
            identifier: self.identifier@,
        }
    }
}

/// The rule `f` matches the log-id `id` of crate `crate_name`.
pub open spec fn id_matches(f: LogIdFilterView, crate_name: Seq<char>, id: LogIdView) -> bool {
    f.crate_name == crate_name && f.module == id.module && f.identifier == id.identifier
}

/// The log-id rule written as `v`.
///
/// The pieces between `"::"` are the crate name, trimmed and not empty, then the pieces of the
/// module path, each holding a non-blank character and joined again, and last the identifier,
/// trimmed and not empty. With two pieces the module path is empty.
pub open spec fn parse_log_id_filter(v: Seq<char>) -> Option<LogIdFilterView> {
    let parts = split_path(v);
    if parts.len() < 2 || trim(parts[0]).len() == 0 {
        None
    } else if exists|k: int| 1 <= k < parts.len() - 1 && #[trigger] trim(parts[k]).len() == 0 {
        None
    } else if trim(parts.last()).len() == 0 {
        None
    } else {
        Some(
            LogIdFilterView {
                crate_name: trim(parts[0]),
                module: join_path(parts.subrange(1, parts.len() - 1)),
                identifier: trim(parts.last()),
            },
        )
    }
}

impl LogIdFilter {
    /// Parses the log-id rule `v` (see [`parse_log_id_filter`]).
    pub fn from_chars(v: &Vec<char>) -> (r: Option<LogIdFilter>)
        ensures
            match r {
                Some(f) => parse_log_id_filter(v@) == Some(f@),
                None => parse_log_id_filter(v@) is None,
            },
    {
        let parts = split_on_path(v);
        let ghost pv = vview(parts@);
        let len = parts.len();
        assert(pv.len() == len);
        if len < 2 {
            return None;
        }
        let crate_name = trimmed(&parts[0]);
        if crate_name.len() == 0 {
            return None;
        }
        let mut i: usize = 1;
        while i < len - 1
            invariant
                1 <= i <= len - 1,
                len == parts.len() == pv.len(),
                pv == vview(parts@),
                pv == split_path(v@),
                forall|j: int| 1 <= j < i ==> #[trigger] trim(pv[j]).len() != 0,
            decreases len - i,
        {
            if is_blank(&parts[i]) {
                assert(trim(split_path(v@)[i as int]).len() == 0);
                return None;
            }
            i = i + 1;
        }
        let identifier = trimmed(&parts[len - 1]);
        if identifier.len() == 0 {
            return None;
        }
        let mut module: Vec<char> = Vec::new();
        if len > 2 {
            module = copy_range(&parts[1], 0, parts[1].len());
            assert(pv.subrange(1, 2) =~= seq![pv[1]]);
            let mut k: usize = 2;
            while k < len - 1
                invariant
                    2 <= k <= len - 1,
                    len == parts.len() == pv.len(),
                    pv == vview(parts@),
                    module@ == join_path(pv.subrange(1, k as int)),
                decreases len - k,
            {
                let ghost before = module@;
                module.push(':');
                module.push(':');
                append_chars(&mut module, &parts[k]);
                assert(pv.subrange(1, k + 1).drop_last() =~= pv.subrange(1, k as int));
                assert(module@ =~= before + seq![':', ':'] + pv[k as int]);
                k = k + 1;
            }
        } else {
            assert(pv.subrange(1, 1) =~= Seq::<Seq<char>>::empty());
        }
        Some(
            LogIdFilter {
                crate_name: string_of(&crate_name),
                module: string_of(&module),
                identifier: string_of(&identifier),
            },
        )
    }

    /// Parses the log-id rule `value`; fails with [`FilterError::ParsingLogId`] holding
    /// `value` where it is no rule (see [`parse_log_id_filter`]).
    pub fn try_from(value: &str) -> (r: Result<LogIdFilter, FilterError>)
        ensures
            match r {
                Ok(f) => parse_log_id_filter(value@) == Some(f@),
                Err(e) => parse_log_id_filter(value@) is None && (e matches FilterError::ParsingLogId(
                    m,
                ) && m@ == value@),
            },
    {
        let v = chars_of(value);
        match LogIdFilter::from_chars(&v) {
            Some(f) => Ok(f),
            None => Err(FilterError::ParsingLogId(value.to_owned())),
        }
    }

    /// The crate this rule matches.
    pub fn get_crate_name(&self) -> (r: &str)
        ensures
            r@ == self@.crate_name,
    {
        self.crate_name.as_str()
    }

    /// The module path this rule matches.
    pub fn get_module_path(&self) -> (r: &str)
        ensures
            r@ == self@.module,
    {
        self.module.as_str()
    }

    /// The identifier this rule matches.
    pub fn get_identifier(&self) -> (r: &str)
        ensures
            r@ == self@.identifier,
    {
        self.identifier.as_str()
    }

    /// This rule matches the log-id `id` of crate `crate_name`.
    pub fn matches(&self, crate_name: &str, id: &LogId) -> (r: bool)
        ensures
            r == id_matches(self@, crate_name@, id@),
    {
        let a = chars_of(self.crate_name.as_str());
        let b = chars_of(crate_name);
        let c = chars_of(self.module.as_str());
        let d = chars_of(id.get_module_path());
        let e = chars_of(self.identifier.as_str());
        let f = chars_of(id.get_identifier());
        chars_eq(&a, &b) && chars_eq(&c, &d) && chars_eq(&e, &f)
    }
}

/// The addon kinds listed in `parts` (see [`crate::logging::filter::ids::addons_of`]).
pub open spec fn addons_of(parts: Seq<Seq<char>>) -> Seq<AddonFilter>
    decreases parts.len(),
{
    if parts.len() == 0 {
        Seq::empty()
    } else {
        let prev = addons_of(parts.drop_last());
        match parse_addon(trim(parts.last())) {
            Some(a) => if a == AddonFilter::AllAllowed {
                prev + all_addons()
            } else {
                prev.push(a)
            },
            None => prev,
        }
    }
}

/// The addon part of `s` and what is left of `s` without it
/// (see [`crate::logging::filter::ids::spec_get_addons`]).
pub open spec fn spec_get_addons(s: Seq<char>) -> (Seq<AddonFilter>, Seq<char>) {
    let a = first_index(s, '(');
    let b = first_index(s, ')');
    if a >= 0 && b >= 0 && a < b {
        (addons_of(split_char(s.subrange(a + 1, b), '&')), s.take(a) + s.skip(b + 1))
    } else {
        (Seq::empty(), s)
    }
}

fn get_addons(s: &mut Vec<char>) -> (r: Vec<AddonFilter>)
    ensures
        (r@, final(s)@) == spec_get_addons(old(s)@),
{
    let mut addons: Vec<AddonFilter> = Vec::new();
    let start = find_char(s, '(');
    let end = find_char(s, ')');
    match (start, end) {
        (Some(a), Some(b)) => {
            if a >= b {
                return addons;
            }
            let inner = copy_range(s, a + 1, b);
            let parts = split_on(&inner, '&');
            let ghost pv = vview(parts@);
            let mut i: usize = 0;
            assert(pv.take(0) =~= Seq::<Seq<char>>::empty());
            while i < parts.len()
                invariant
                    i <= parts.len() == pv.len(),
                    pv == vview(parts@),
                    addons@ == addons_of(pv.take(i as int)),
                decreases parts.len() - i,
            {
                let part = trimmed(&parts[i]);
                assert(pv.take(i + 1).drop_last() =~= pv.take(i as int));
                assert(pv.take(i + 1).last() == pv[i as int]);
                match addon_of_chars(&part) {
                    Some(addon) => push_addon(&mut addons, addon),
                    None => {},
                }
                i = i + 1;
            }
            assert(pv.take(pv.len() as int) =~= pv);
            let rest = cut_range(s, a, b);
            *s = rest;
            addons
        },
        _ => addons,
    }
}

/// A log-id rule together with the addon kinds it allows.
#[derive(Default, Debug, Clone)]
pub struct LogIdAddonFilter {
    log_id: LogIdFilter,
    allowed_addons: Vec<AddonFilter>,
}

/// The mathematical model of a [`LogIdAddonFilter`].
#[verifier::ext_equal]
pub struct LogIdAddonFilterView {
    pub log_id: LogIdFilterView,
    pub addons: Seq<AddonFilter>,
}

impl View for LogIdAddonFilter {
    type V = LogIdAddonFilterView;

    closed spec fn view(&self) -> LogIdAddonFilterView {
        LogIdAddonFilterView { log_id: self.log_id@, addons: self.allowed_addons@ }
    }
}

/// The model of each element of `v`.
pub open spec fn id_rules_view(v: Seq<LogIdAddonFilter>) -> Seq<LogIdAddonFilterView> {
    v.map_values(|f: LogIdAddonFilter| f@)
}

/// The log-id rule with addons written as `v`: the addon part is read and cut out first,
/// what is left must be a log-id rule.
pub open spec fn parse_addon_id(v: Seq<char>) -> Option<LogIdAddonFilterView> {
    let (addons, rest) = spec_get_addons(v);
    match parse_log_id_filter(rest) {
        Some(f) => Some(LogIdAddonFilterView { log_id: f, addons }),
        None => None,
    }
}

impl LogIdAddonFilter {
    fn from_chars(v: &Vec<char>) -> (r: Result<LogIdAddonFilter, Vec<char>>)
        ensures
            match r {
                Ok(f) => parse_addon_id(v@) == Some(f@),
                Err(rest) => parse_addon_id(v@) is None && rest@ == spec_get_addons(v@).1,
            },
    {
        let mut stripped = copy_range(v, 0, v.len());
        assert(stripped@ =~= v@);
        let addons = get_addons(&mut stripped);
        match LogIdFilter::from_chars(&stripped) {
            Some(log_id) => Ok(LogIdAddonFilter { log_id, allowed_addons: addons }),
            None => Err(stripped),
        }
    }

    /// Parses the log-id rule with addons `value` (see [`parse_addon_id`]); fails with
    /// [`FilterError::ParsingLogId`] holding what was left of `value` once the addon part
    /// was cut out.
    pub fn try_from(value: &str) -> (r: Result<LogIdAddonFilter, FilterError>)
        ensures
            match r {
                Ok(f) => parse_addon_id(value@) == Some(f@),
                Err(e) => parse_addon_id(value@) is None && (e matches FilterError::ParsingLogId(
                    m,
                ) && m@ == spec_get_addons(value@).1),
            },
    {
        let v = chars_of(value);
        match LogIdAddonFilter::from_chars(&v) {
            Ok(f) => Ok(f),
            Err(rest) => Err(FilterError::ParsingLogId(string_of(&rest))),
        }
    }
}

/// The log-id rules listed in `parts`, in order (see [`crate::logging::filter::ids::ids_of`]).
pub open spec fn ids_of(parts: Seq<Seq<char>>) -> Seq<LogIdAddonFilterView>
    decreases parts.len(),
{
    if parts.len() == 0 {
        Seq::empty()
    } else {
        let prev = ids_of(parts.drop_last());
        match parse_addon_id(trim(parts.last())) {
            Some(f) => prev.push(f),
            None => prev,
        }
    }
}

/// The log-id part of `s` and what is left of `s` without it
/// (see [`crate::logging::filter::ids::spec_get_ids`]).
pub open spec fn spec_get_ids(s: Seq<char>) -> (Seq<LogIdAddonFilterView>, Seq<char>) {
    let a = first_index(s, '[');
    let b = first_index(s, ']');
    if a >= 0 && b >= 0 && a < b {
        (ids_of(split_char(s.subrange(a + 1, b), '|')), s.take(a) + s.skip(b + 1))
    } else {
        (Seq::empty(), s)
    }
}

fn get_ids(s: &mut Vec<char>) -> (r: Vec<LogIdAddonFilter>)
    ensures
        (id_rules_view(r@), final(s)@) == spec_get_ids(old(s)@),
{
    let mut ids: Vec<LogIdAddonFilter> = Vec::new();
    assert(id_rules_view(ids@) =~= Seq::<LogIdAddonFilterView>::empty());
    let start = find_char(s, '[');
    let end = find_char(s, ']');
    match (start, end) {
        (Some(a), Some(b)) => {
            if a >= b {
                return ids;
            }
            let inner = copy_range(s, a + 1, b);
            let parts = split_on(&inner, '|');
            let ghost pv = vview(parts@);
            let mut i: usize = 0;
            assert(pv.take(0) =~= Seq::<Seq<char>>::empty());
            while i < parts.len()
                invariant
                    i <= parts.len() == pv.len(),
                    pv == vview(parts@),
                    id_rules_view(ids@) == ids_of(pv.take(i as int)),
                decreases parts.len() - i,
            {
                let part = trimmed(&parts[i]);
                assert(pv.take(i + 1).drop_last() =~= pv.take(i as int));
                assert(pv.take(i + 1).last() == pv[i as int]);
                match LogIdAddonFilter::from_chars(&part) {
                    Ok(id) => {
                        let ghost before = id_rules_view(ids@);
                        ids.push(id);
                        assert(id_rules_view(ids@) =~= before.push(id@));
                    },
                    Err(_) => {},
                }
                i = i + 1;
            }
            assert(pv.take(pv.len() as int) =~= pv);
            let rest = cut_range(s, a, b);
            *s = rest;
            ids
        },
        _ => ids,
    }
}

/// Some rule of `ids` matches the log-id `id` of crate `crate_name`.
pub open spec fn id_allowed(ids: Seq<LogIdAddonFilterView>, crate_name: Seq<char>, id: LogIdView) -> bool {
    exists|i: int| 0 <= i < ids.len() && id_matches(#[trigger] ids[i].log_id, crate_name, id)
}

/// Some rule of `ids` matches the log-id `id` of crate `crate_name` and allows `addon`.
pub open spec fn addon_allowed(
    ids: Seq<LogIdAddonFilterView>,
    crate_name: Seq<char>,
    id: LogIdView,
    addon: AddonFilter,
) -> bool {
    exists|i: int|
        0 <= i < ids.len() && id_matches(#[trigger] ids[i].log_id, crate_name, id)
            && ids[i].addons.contains(addon)
}

fn id_allowed_exec(ids: &Vec<LogIdAddonFilter>, crate_name: &str, id: LogId) -> (r: bool)
    ensures
        r == id_allowed(id_rules_view(ids@), crate_name@, id@),
{
    let ghost v = id_rules_view(ids@);
    let mut i: usize = 0;
    while i < ids.len()
        invariant
            i <= ids.len() == v.len(),
            v == id_rules_view(ids@),
            forall|j: int| 0 <= j < i ==> !id_matches(#[trigger] v[j].log_id, crate_name@, id@),
        decreases ids.len() - i,
    {
        if ids[i].log_id.matches(crate_name, &id) {
            assert(id_matches(v[i as int].log_id, crate_name@, id@));
            return true;
        }
        i = i + 1;
    }
    false
}

fn addon_allowed_exec(ids: &Vec<LogIdAddonFilter>, crate_name: &str, id: LogId, addon: AddonFilter) -> (r: bool)
    ensures
        r == addon_allowed(id_rules_view(ids@), crate_name@, id@, addon),
{
    let ghost v = id_rules_view(ids@);
    let mut i: usize = 0;
    while i < ids.len()
        invariant
            i <= ids.len() == v.len(),
            v == id_rules_view(ids@),
            forall|j: int|
                0 <= j < i ==> !(id_matches(#[trigger] v[j].log_id, crate_name@, id@)
                    && v[j].addons.contains(addon)),
        decreases ids.len() - i,
    {
        if ids[i].log_id.matches(crate_name, &id) && contains_addon(&ids[i].allowed_addons, addon) {
            assert(id_matches(v[i as int].log_id, crate_name@, id@) && v[i as int].addons.contains(addon));
            return true;
        }
        i = i + 1;
    }
    false
}

/// A rule for the events set in a crate, or in a module of a crate and its sub-modules.
#[derive(Default, Debug, Clone)]
pub struct LogIdModuleFilter {
    no_general_logging: bool,
    origin_crate_name: String,
    origin_module: String,
    level: LogLevel,
    allowed_ids: Vec<LogIdAddonFilter>,
    allowed_addons: Vec<AddonFilter>,
}

/// The mathematical model of a [`LogIdModuleFilter`].
#[verifier::ext_equal]
pub struct LogIdModuleFilterView {
    pub no_general_logging: bool,
    pub origin_crate_name: Seq<char>,
    pub origin_module: Seq<char>,
    pub level: LogLevel,
    pub ids: Seq<LogIdAddonFilterView>,
    pub addons: Seq<AddonFilter>,
}

impl View for LogIdModuleFilter {
    type V = LogIdModuleFilterView;

    closed spec fn view(&self) -> LogIdModuleFilterView {
        LogIdModuleFilterView {
            no_general_logging: self.no_general_logging,
            origin_crate_name: self.origin_crate_name@,
            origin_module: self.origin_module@,
            level: self.level,
            ids: id_rules_view(self.allowed_ids@),
            addons: self.allowed_addons@,
        }
    }
}

/// The model of each element of `v`.
pub open spec fn module_rules_view(v: Seq<LogIdModuleFilter>) -> Seq<LogIdModuleFilterView> {
    v.map_values(|m: LogIdModuleFilter| m@)
}

/// The crate name and module path of the module `m` of a module rule: the text up to the
/// first `"::"` and the text after it, neither of which may be empty; without `"::"` the
/// whole text is the crate name and the module path is empty.
pub open spec fn split_crate(m: Seq<char>) -> Option<(Seq<char>, Seq<char>)> {
    let k = first_path_sep(m);
    if k >= 0 {
        if k == 0 || k + 2 == m.len() {
            None
        } else {
            Some((m.take(k), m.skip(k + 2)))
        }
    } else {
        Some((m, Seq::empty()))
    }
}

/// The module rule written as `s`, with the log-id rules and addons already taken out of it
/// (see [`crate::logging::filter::module::parse_module`]; the module names a crate here).
pub open spec fn parse_module(
    s: Seq<char>,
    ids: Seq<LogIdAddonFilterView>,
    addons: Seq<AddonFilter>,
) -> Option<LogIdModuleFilterView> {
    let parts = split_char(s, '=');
    if parts.len() != 1 && parts.len() != 2 {
        None
    } else if trim(parts[0]).len() == 0 {
        None
    } else {
        match split_crate(trim(parts[0])) {
            None => None,
            Some((crate_name, module)) => if parts.len() == 1 {
                Some(
                    LogIdModuleFilterView {
                        no_general_logging: true,
                        origin_crate_name: crate_name,
                        origin_module: module,
                        level: LogLevel::Debug,
                        ids,
                        addons,
                    },
                )
            } else {
                match parse_level(trim(parts[1])) {
                    Some(level) => Some(
                        LogIdModuleFilterView {
                            no_general_logging: false,
                            origin_crate_name: crate_name,
                            origin_module: module,
                            level,
                            ids,
                            addons,
                        },
                    ),
                    None => None,
                }
            },
        }
    }
}

/// An origin in crate `origin_crate`, module `origin`, lies in the module of rule `m`.
pub open spec fn origin_in_module(m: LogIdModuleFilterView, origin_crate: Seq<char>, origin: Seq<char>) -> bool {
    m.origin_crate_name == origin_crate && has_prefix(origin, m.origin_module)
}

/// An event with log-id `id` of crate `id_crate`, set in module `origin` of crate
/// `origin_crate`, is allowed by the module rule `m`.
pub open spec fn module_event_allowed(
    m: LogIdModuleFilterView,
    id_crate: Seq<char>,
    id: LogIdView,
    origin_crate: Seq<char>,
    origin: Seq<char>,
) -> bool {
    origin_in_module(m, origin_crate, origin) && ((!m.no_general_logging && level_le(m.level, id.level))
        || id_allowed(m.ids, id_crate, id))
}

/// The addon `addon` of such an event is allowed by the module rule `m`.
pub open spec fn module_addon_allowed(
    m: LogIdModuleFilterView,
    id_crate: Seq<char>,
    id: LogIdView,
    origin_crate: Seq<char>,
    origin: Seq<char>,
    addon: AddonFilter,
) -> bool {
    origin_in_module(m, origin_crate, origin) && ((!m.no_general_logging && level_le(m.level, id.level)
        && m.addons.contains(addon)) || addon_allowed(m.ids, id_crate, id, addon))
}

impl LogIdModuleFilter {
    /// Parses the module rule `value`, with the log-ids `ids` and addons `addons` taken out
    /// of it before (see [`LogIdModuleFilter::from_chars`]).
    pub fn try_from(
        value: &str,
        ids: Vec<LogIdAddonFilter>,
        addons: Vec<AddonFilter>,
    ) -> (r: Result<Self, FilterError>)
        ensures
            match r {
                Ok(m) => parse_module(value@, id_rules_view(ids@), addons@) == Some(m@),
                Err(e) => parse_module(value@, id_rules_view(ids@), addons@) is None && (e matches FilterError::ParsingModule(
                    t,
                ) && t@ == value@),
            },
    {
        LogIdModuleFilter::from_chars(&chars_of(value), ids, addons)
    }

    fn from_chars(
        s: &Vec<char>,
        ids: Vec<LogIdAddonFilter>,
        addons: Vec<AddonFilter>,
    ) -> (r: Result<Self, FilterError>)
        ensures
            match r {
                Ok(m) => parse_module(s@, id_rules_view(ids@), addons@) == Some(m@),
                Err(e) => parse_module(s@, id_rules_view(ids@), addons@) is None && (e matches FilterError::ParsingModule(
                    t,
                ) && t@ == s@),
            },
    {
        let parts = split_on(s, '=');
        let len = parts.len();
        if len != 1 && len != 2 {
            return Err(FilterError::ParsingModule(string_of(s)));
        }
        let module = trimmed(&parts[0]);
        if module.len() == 0 {
            return Err(FilterError::ParsingModule(string_of(s)));
        }
        let (origin_crate_name, origin_module) = match find_path_sep(&module) {
            Some(k) => {
                if k == 0 || k + 2 == module.len() {
                    return Err(FilterError::ParsingModule(string_of(s)));
                }
                (copy_range(&module, 0, k), copy_range(&module, k + 2, module.len()))
            },
            None => (copy_range(&module, 0, module.len()), Vec::new()),
        };
        assert(module@.subrange(0, module@.len() as int) =~= module@);
        assert(origin_module@.len() == 0 ==> origin_module@ =~= Seq::<char>::empty());
        if len == 1 {
            return Ok(
                LogIdModuleFilter {
                    no_general_logging: true,
                    origin_crate_name: string_of(&origin_crate_name),
                    origin_module: string_of(&origin_module),
                    level: LogLevel::Debug,
                    allowed_ids: ids,
                    allowed_addons: addons,
                },
            );
        }
        let level_part = trimmed(&parts[1]);
        match try_into_log_level(&level_part) {
            Some(level) => Ok(
                LogIdModuleFilter {
                    no_general_logging: false,
                    origin_crate_name: string_of(&origin_crate_name),
                    origin_module: string_of(&origin_module),
                    level,
                    allowed_ids: ids,
                    allowed_addons: addons,
                },
            ),
            None => Err(FilterError::ParsingModule(string_of(s))),
        }
    }

    /// An origin in crate `origin_crate` at `origin` lies in the module of this rule.
    pub fn origin_in_module(&self, origin_crate: &str, origin: &Origin) -> (r: bool)
        ensures
            r == origin_in_module(self@, origin_crate@, origin@.module),
    {
        let a = chars_of(self.origin_crate_name.as_str());
        let b = chars_of(origin_crate);
        if !chars_eq(&a, &b) {
            return false;
        }
        let o = chars_of(origin.module.as_str());
        let m = chars_of(self.origin_module.as_str());
        starts_with(&o, &m)
    }

    /// An event with log-id `id` of crate `id_crate`, set at `origin` in crate
    /// `origin_crate`, is allowed by this rule.
    pub fn event_allowed(&self, id_crate: &str, id: LogId, origin_crate: &str, origin: &Origin) -> (r: bool)
        ensures
            r == module_event_allowed(self@, id_crate@, id@, origin_crate@, origin@.module),
    {
        if !self.origin_in_module(origin_crate, origin) {
            return false;
        }
        (!self.no_general_logging && self.level.at_most(id.get_log_level())) || id_allowed_exec(
            &self.allowed_ids,
            id_crate,
            id,
        )
    }

    /// The addon `addon` of such an event is allowed by this rule.
    pub fn addon_allowed(
        &self,
        id_crate: &str,
        id: LogId,
        origin_crate: &str,
        origin: &Origin,
        addon: &AddonFilter,
    ) -> (r: bool)
        ensures
            r == module_addon_allowed(self@, id_crate@, id@, origin_crate@, origin@.module, *addon),
    {
        if !self.origin_in_module(origin_crate, origin) {
            return false;
        }
        (!self.no_general_logging && self.level.at_most(id.get_log_level()) && contains_addon(
            &self.allowed_addons,
            *addon,
        )) || addon_allowed_exec(&self.allowed_ids, id_crate, id, *addon)
    }
}

fn id_allowed_in_origin(
    modules: &Vec<LogIdModuleFilter>,
    id_crate: &str,
    id: LogId,
    origin_crate: &str,
    origin: &Origin,
) -> (r: bool)
    ensures
        r == exists|i: int|
            0 <= i < module_rules_view(modules@).len() && module_event_allowed(
                #[trigger] module_rules_view(modules@)[i],
                id_crate@,
                id@,
                origin_crate@,
                origin@.module,
            ),
{
    let ghost v = module_rules_view(modules@);
    let mut i: usize = 0;
    while i < modules.len()
        invariant
            i <= modules.len() == v.len(),
            v == module_rules_view(modules@),
            forall|j: int|
                0 <= j < i ==> !module_event_allowed(
                    #[trigger] v[j],
                    id_crate@,
                    id@,
                    origin_crate@,
                    origin@.module,
                ),
        decreases modules.len() - i,
    {
        if modules[i].event_allowed(id_crate, id, origin_crate, origin) {
            assert(module_event_allowed(v[i as int], id_crate@, id@, origin_crate@, origin@.module));
            return true;
        }
        i = i + 1;
    }
    false
}

fn addon_allowed_in_origin(
    modules: &Vec<LogIdModuleFilter>,
    id_crate: &str,
    id: LogId,
    origin_crate: &str,
    origin: &Origin,
    addon: AddonFilter,
) -> (r: bool)
    ensures
        r == exists|i: int|
            0 <= i < module_rules_view(modules@).len() && module_addon_allowed(
                #[trigger] module_rules_view(modules@)[i],
                id_crate@,
                id@,
                origin_crate@,
                origin@.module,
                addon,
            ),
{
    let ghost v = module_rules_view(modules@);
    let mut i: usize = 0;
    while i < modules.len()
        invariant
            i <= modules.len() == v.len(),
            v == module_rules_view(modules@),
            forall|j: int|
                0 <= j < i ==> !module_addon_allowed(
                    #[trigger] v[j],
                    id_crate@,
                    id@,
                    origin_crate@,
                    origin@.module,
                    addon,
                ),
        decreases modules.len() - i,
    {
        if modules[i].addon_allowed(id_crate, id, origin_crate, origin, &addon) {
            assert(module_addon_allowed(v[i as int], id_crate@, id@, origin_crate@, origin@.module, addon));
            return true;
        }
        i = i + 1;
    }
    false
}

/// Which events, and which of their addons, a crate filter logs.
#[derive(Default, Debug)]
pub struct InnerLogFilter {
    no_general_logging: bool,
    general_level: LogLevel,
    general_addons: Vec<AddonFilter>,
    /// LogIds set with `on[LogId]`
    allowed_global_ids: Vec<LogIdAddonFilter>,
    allowed_modules: Vec<LogIdModuleFilter>,
}

/// The mathematical model of an [`InnerLogFilter`].
#[verifier::ext_equal]
pub struct InnerLogFilterView {
    pub no_general_logging: bool,
    pub general_level: LogLevel,
    pub general_addons: Seq<AddonFilter>,
    pub global_ids: Seq<LogIdAddonFilterView>,
    pub modules: Seq<LogIdModuleFilterView>,
}

impl View for InnerLogFilter {
    type V = InnerLogFilterView;

    closed spec fn view(&self) -> InnerLogFilterView {
        InnerLogFilterView {
            no_general_logging: self.no_general_logging,
            general_level: self.general_level,
            general_addons: self.general_addons@,
            global_ids: id_rules_view(self.allowed_global_ids@),
            modules: module_rules_view(self.allowed_modules@),
        }
    }
}

/// The configuration of the filter `off`.
pub open spec fn off_config() -> InnerLogFilterView {
    InnerLogFilterView {
        no_general_logging: true,
        general_level: LogLevel::Debug,
        general_addons: Seq::empty(),
        global_ids: Seq::empty(),
        modules: Seq::empty(),
    }
}

/// The configuration the parts of a filter are read into.
pub open spec fn initial_config() -> InnerLogFilterView {
    InnerLogFilterView {
        no_general_logging: true,
        general_level: LogLevel::Error,
        general_addons: Seq::empty(),
        global_ids: Seq::empty(),
        modules: Seq::empty(),
    }
}

/// `c` after reading one comma-separated part of a filter
/// (see [`crate::logging::filter::config::config_step`]).
pub open spec fn config_step(c: InnerLogFilterView, part: Seq<char>) -> InnerLogFilterView {
    let (ids, s1) = spec_get_ids(part);
    if has_prefix(s1, seq!['o', 'n']) && ids.len() > 0 {
        InnerLogFilterView { global_ids: c.global_ids + ids, ..c }
    } else {
        let (addons, s2) = spec_get_addons(s1);
        match parse_level(trim(s2)) {
            Some(level) => InnerLogFilterView {
                no_general_logging: false,
                general_level: level,
                general_addons: addons,
                ..c
            },
            None => match parse_module(s2, ids, addons) {
                Some(m) => InnerLogFilterView { modules: c.modules.push(m), ..c },
                None => c,
            },
        }
    }
}

/// The configuration after reading `parts` in order.
pub open spec fn config_fold(parts: Seq<Seq<char>>) -> InnerLogFilterView
    decreases parts.len(),
{
    if parts.len() == 0 {
        initial_config()
    } else {
        config_step(config_fold(parts.drop_last()), parts.last())
    }
}

/// The configuration that the filter text `s` describes: a blank filter, or `off` in any
/// ASCII case, logs nothing; any other filter is read part by part.
pub open spec fn parse_inner_filter(s: Seq<char>) -> InnerLogFilterView {
    if trim(s).len() == 0 || lower_eq(s, seq!['o', 'f', 'f']) {
        off_config()
    } else {
        config_fold(split_char(s, ','))
    }
}

/// The configuration `c` allows an event with log-id `id` of crate `id_crate`, set in module
/// `origin` of crate `origin_crate`.
pub open spec fn filter_allows_event(
    c: InnerLogFilterView,
    id_crate: Seq<char>,
    id: LogIdView,
    origin_crate: Seq<char>,
    origin: Seq<char>,
) -> bool {
    ||| (!c.no_general_logging && level_le(c.general_level, id.level))
    ||| id_allowed(c.global_ids, id_crate, id)
    ||| exists|i: int|
        0 <= i < c.modules.len() && module_event_allowed(
            #[trigger] c.modules[i],
            id_crate,
            id,
            origin_crate,
            origin,
        )
}

/// The configuration `c` allows the addon kind `addon` of such an event.
pub open spec fn filter_allows_addon(
    c: InnerLogFilterView,
    id_crate: Seq<char>,
    id: LogIdView,
    origin_crate: Seq<char>,
    origin: Seq<char>,
    addon: AddonFilter,
) -> bool {
    ||| (!c.no_general_logging && c.general_addons.contains(addon))
    ||| addon_allowed(c.global_ids, id_crate, id, addon)
    ||| exists|i: int|
        0 <= i < c.modules.len() && module_addon_allowed(
            #[trigger] c.modules[i],
            id_crate,
            id,
            origin_crate,
            origin,
            addon,
        )
}

impl InnerLogFilter {
    /// The configuration that the filter text `filter` describes (see [`parse_inner_filter`]).
    pub fn new(filter: &str) -> (r: Self)
        ensures
            r@ == parse_inner_filter(filter@),
    {
        let v = chars_of(filter);
        let off = vec!['o', 'f', 'f'];
        assert(off@ =~= seq!['o', 'f', 'f']);
        if is_blank(&v) || lower_equals(&v, &off) {
            let r = InnerLogFilter {
                no_general_logging: true,
                general_level: LogLevel::Debug,
                general_addons: Vec::new(),
                allowed_global_ids: Vec::new(),
                allowed_modules: Vec::new(),
            };
            assert(r@ =~= off_config());
            return r;
        }
        let mut log_filter = InnerLogFilter {
            no_general_logging: true,
            general_level: LogLevel::Error,
            general_addons: Vec::new(),
            allowed_global_ids: Vec::new(),
            allowed_modules: Vec::new(),
        };
        let parts = split_on(&v, ',');
        let ghost pv = vview(parts@);
        assert(log_filter@ =~= initial_config());
        assert(pv.take(0) =~= Seq::<Seq<char>>::empty());
        let on = vec!['o', 'n'];
        assert(on@ =~= seq!['o', 'n']);
        let mut i: usize = 0;
        while i < parts.len()
            invariant
                i <= parts.len() == pv.len(),
                pv == vview(parts@),
                on@ == seq!['o', 'n'],
                log_filter@ == config_fold(pv.take(i as int)),
            decreases parts.len() - i,
        {
            assert(pv.take(i + 1).drop_last() =~= pv.take(i as int));
            assert(pv.take(i + 1).last() == pv[i as int]);
            let ghost before = log_filter@;
            let mut stripped = copy_range(&parts[i], 0, parts[i].len());
            assert(stripped@ =~= pv[i as int]);
            let mut ids = get_ids(&mut stripped);
            if starts_with(&stripped, &on) && ids.len() > 0 {
                let ghost added = id_rules_view(ids@);
                let ghost old_ids = log_filter.allowed_global_ids@;
                log_filter.allowed_global_ids.append(&mut ids);
                assert(id_rules_view(log_filter.allowed_global_ids@) =~= id_rules_view(old_ids) + added);
                assert(log_filter@ =~= config_step(before, pv[i as int]));
            } else {
                let addons = get_addons(&mut stripped);
                let level_part = trimmed(&stripped);
                match try_into_log_level(&level_part) {
                    Some(general_level) => {
                        log_filter.no_general_logging = false;
                        log_filter.general_level = general_level;
                        log_filter.general_addons = addons;
                        assert(log_filter@ =~= config_step(before, pv[i as int]));
                    },
                    None => {
                        match LogIdModuleFilter::from_chars(&stripped, ids, addons) {
                            Ok(module_filter) => {
                                let ghost old_modules = log_filter.allowed_modules@;
                                log_filter.allowed_modules.push(module_filter);
                                assert(module_rules_view(log_filter.allowed_modules@)
                                    =~= module_rules_view(old_modules).push(module_filter@));
                                assert(log_filter@ =~= config_step(before, pv[i as int]));
                            },
                            Err(_) => {
                                assert(log_filter@ =~= config_step(before, pv[i as int]));
                            },
                        }
                    },
                }
            }
            i = i + 1;
        }
        assert(pv.take(pv.len() as int) =~= pv);
        log_filter
    }

    fn replace(&mut self, other: Self)
        ensures
            final(self)@ == other@,
    {
        self.allowed_global_ids = other.allowed_global_ids;
        self.allowed_modules = other.allowed_modules;
        self.general_addons = other.general_addons;
        self.general_level = other.general_level;
        self.no_general_logging = other.no_general_logging;
    }

    fn allow_addon_filter(
        &self,
        id_crate: &str,
        id: LogId,
        origin_crate: &str,
        origin: &Origin,
        addon_filter: AddonFilter,
    ) -> (r: bool)
        ensures
            r == filter_allows_addon(self@, id_crate@, id@, origin_crate@, origin@.module, addon_filter),
    {
        if !self.no_general_logging && contains_addon(&self.general_addons, addon_filter) {
            return true;
        }
        let by_id = addon_allowed_exec(&self.allowed_global_ids, id_crate, id, addon_filter);
        let by_module = addon_allowed_in_origin(
            &self.allowed_modules,
            id_crate,
            id,
            origin_crate,
            origin,
            addon_filter,
        );
        assert(self@.modules == module_rules_view(self.allowed_modules@));
        by_id || by_module
    }

    /// The addon `addon` of an event with log-id `id` of crate `id_crate`, set at `origin` in
    /// crate `origin_crate`, is allowed; hints and notes never are.
    pub fn allow_addon(
        &self,
        id_crate: &str,
        id: LogId,
        origin_crate: &str,
        origin: &Origin,
        addon: &AddonKind,
    ) -> (r: bool)
        ensures
            r == match addon_kind_filter(*addon) {
                Some(a) => filter_allows_addon(self@, id_crate@, id@, origin_crate@, origin@.module, a),
                None => false,
            },
    {
        match AddonFilter::from(addon) {
            Some(addon_filter) => self.allow_addon_filter(id_crate, id, origin_crate, origin, addon_filter),
            None => false,
        }
    }

    /// The origin of such an event is shown.
    pub fn show_origin_info(&self, id_crate: &str, id: LogId, origin_crate: &str, origin: &Origin) -> (r: bool)
        ensures
            r == filter_allows_addon(self@, id_crate@, id@, origin_crate@, origin@.module, AddonFilter::Origin),
    {
        self.allow_addon_filter(id_crate, id, origin_crate, origin, AddonFilter::Origin)
    }

    /// An event with log-id `id` of crate `id_crate`, set at `origin` in crate `origin_crate`,
    /// is allowed.
    pub fn allow_event(&self, id_crate: &str, id: LogId, origin_crate: &str, origin: &Origin) -> (r: bool)
        ensures
            r == filter_allows_event(self@, id_crate@, id@, origin_crate@, origin@.module),
    {
        if !self.no_general_logging && self.general_level.at_most(id.get_log_level()) {
            return true;
        }
        let by_id = id_allowed_exec(&self.allowed_global_ids, id_crate, id);
        let by_module = id_allowed_in_origin(&self.allowed_modules, id_crate, id, origin_crate, origin);
        assert(self@.modules == module_rules_view(self.allowed_modules@));
        by_id || by_module
    }
}

/// A crate filter that can be replaced as a whole.
#[derive(Default, Debug)]
pub struct LogFilter {
    filter: InnerLogFilter,
}

impl View for LogFilter {
    type V = InnerLogFilterView;

    closed spec fn view(&self) -> InnerLogFilterView {
        self.filter@
    }
}

impl LogFilter {
    /// A filter with the configuration that the filter text `config` describes.
    pub fn new(config: &str) -> (r: Self)
        ensures
            r@ == parse_inner_filter(config@),
    {
        LogFilter { filter: InnerLogFilter::new(config) }
    }

    /// Replaces the configuration by the one that the filter text `config` describes.
    pub fn set_filter(&mut self, config: &str) -> (r: Result<(), FilterError>)
        ensures
            r is Ok,
            final(self)@ == parse_inner_filter(config@),
    {
        self.filter.replace(InnerLogFilter::new(config));
        Ok(())
    }

    /// See [`InnerLogFilter::allow_addon`].
    pub fn allow_addon(
        &self,
        id_crate: &str,
        id: LogId,
        origin_crate: &str,
        origin: &Origin,
        addon: &AddonKind,
    ) -> (r: bool)
        ensures
            r == match addon_kind_filter(*addon) {
                Some(a) => filter_allows_addon(self@, id_crate@, id@, origin_crate@, origin@.module, a),
                None => false,
            },
    {
        self.filter.allow_addon(id_crate, id, origin_crate, origin, addon)
    }

    /// See [`InnerLogFilter::show_origin_info`].
    pub fn show_origin_info(&self, id_crate: &str, id: LogId, origin_crate: &str, origin: &Origin) -> (r: bool)
        ensures
            r == filter_allows_addon(self@, id_crate@, id@, origin_crate@, origin@.module, AddonFilter::Origin),
    {
        self.filter.show_origin_info(id_crate, id, origin_crate, origin)
    }

    /// See [`InnerLogFilter::allow_event`].
    pub fn allow_event(&self, id_crate: &str, id: LogId, origin_crate: &str, origin: &Origin) -> (r: bool)
        ensures
            r == filter_allows_event(self@, id_crate@, id@, origin_crate@, origin@.module),
    {
        self.filter.allow_event(id_crate, id, origin_crate, origin)
    }
}

} // verus!
