//! Log-id rules of the filter syntax: `<module path>::<identifier>(<addons>)`.
use super::addon::{AddonFilter, FilterError, addon_of_chars, all_addons, parse_addon, push_addon};
use crate::log_id::{LogId, LogIdView, append_chars};
use crate::text::{
    chars_eq, chars_of, copy_range, cut_range, find_char, first_index, is_blank, join_path, split_char,
    split_on, split_on_path, split_path, string_of, trim, trimmed, vview,
};
use vstd::prelude::*;
use vstd::std_specs::cmp::PartialEqSpecImpl;

verus! {

/// A rule that matches log-ids by module path and identifier.
#[derive(Default, Debug, Clone, PartialOrd, Ord)]
pub struct LogIdFilter {
    module: String,
    identifier: String,
}

/// The mathematical model of a [`LogIdFilter`].
#[verifier::ext_equal]
pub struct LogIdFilterView {
    pub module: Seq<char>,
    pub identifier: Seq<char>,
}

impl View for LogIdFilter {
    type V = LogIdFilterView;

    closed spec fn view(&self) -> LogIdFilterView {
        LogIdFilterView { module: self.module@, identifier: self.identifier@ }
    }
}

/// The rule `f` matches the log-id `id`.
pub open spec fn id_matches(f: LogIdFilterView, id: LogIdView) -> bool {
    f.module == id.module && f.identifier == id.identifier
}

/// The log-id rule written as `v`: the pieces between `"::"` must all hold a non-blank
/// character and there must be at least two; the last piece is the identifier, the
/// others joined again form the module path.
pub open spec fn parse_log_id_filter(v: Seq<char>) -> Option<LogIdFilterView> {
    let parts = split_path(v);
    if parts.len() < 2 || exists|i: int| 0 <= i < parts.len() && #[trigger] trim(parts[i]).len() == 0 {
        None
    } else {
        Some(LogIdFilterView { module: join_path(parts.drop_last()), identifier: parts.last() })
    }
}

impl LogIdFilter {
    /// Parses the log-id rule `v` (see [`parse_log_id_filter`]).
    pub fn from_chars(v: &Vec<char>) -> (r: Option<LogIdFilter>)
        ensures
            match r {
                Some(f) => parse_log_id_filter(v@) == Some(f@),
                None => parse_log_id_filter(v@) is None,
            },
    {
        let parts = split_on_path(v);
        let ghost pv = vview(parts@);
        let len = parts.len();
        assert(pv.len() == len);
        if len < 2 {
            return None;
        }
        let mut i: usize = 0;
        while i < len
            invariant
                i <= len == parts.len() == pv.len(),
                pv == vview(parts@),
                pv == split_path(v@),
                forall|j: int| 0 <= j < i ==> #[trigger] trim(pv[j]).len() != 0,
            decreases len - i,
        {
            if is_blank(&parts[i]) {
                assert(trim(split_path(v@)[i as int]).len() == 0);
                return None;
            }
            i = i + 1;
        }
        let mut module = copy_range(&parts[0], 0, parts[0].len());
        assert(module@ =~= pv[0]);
        assert(join_path(pv.take(1)) == pv[0]);
        let mut k: usize = 1;
        while k < len - 1
            invariant
                1 <= k <= len - 1,
                len == parts.len() == pv.len(),
                pv == vview(parts@),
                module@ == join_path(pv.take(k as int)),
            decreases len - k,
        {
            let ghost before = module@;
            module.push(':');
            module.push(':');
            append_chars(&mut module, &parts[k]);
            assert(pv.take(k + 1).drop_last() =~= pv.take(k as int));
            assert(module@ =~= before + seq![':', ':'] + pv[k as int]);
            k = k + 1;
        }
        assert(pv.drop_last() =~= pv.take(len - 1));
        let identifier = copy_range(&parts[len - 1], 0, parts[len - 1].len());
        assert(identifier@ =~= pv.last());
        Some(LogIdFilter { module: string_of(&module), identifier: string_of(&identifier) })
    }

    /// Parses the log-id rule `value`; fails with [`FilterError::ParsingLogId`] holding
    /// `value` where it is no rule (see [`parse_log_id_filter`]).
    pub fn try_from(value: &str) -> (r: Result<LogIdFilter, FilterError>)
        ensures
            match r {
                Ok(f) => parse_log_id_filter(value@) == Some(f@),
                Err(e) => parse_log_id_filter(value@) is None && (e matches FilterError::ParsingLogId(
                    m,
                ) && m@ == value@),
            },
    {
        let v = chars_of(value);
        match LogIdFilter::from_chars(&v) {
            Some(f) => Ok(f),
            None => Err(FilterError::ParsingLogId(value.to_owned())),
        }
    }

    /// The module path this rule matches.
    pub fn get_module_path(&self) -> (r: &str)
        ensures
            r@ == self@.module,
    {
        self.module.as_str()
    }

    /// The identifier this rule matches.
    pub fn get_identifier(&self) -> (r: &str)
        ensures
            r@ == self@.identifier,
    {
        self.identifier.as_str()
    }
}

impl PartialEq for LogIdFilter {
    fn eq(&self, other: &Self) -> (r: bool) {
        let a = chars_of(self.module.as_str());
        let b = chars_of(other.module.as_str());
        let c = chars_of(self.identifier.as_str());
        let d = chars_of(other.identifier.as_str());
        chars_eq(&a, &b) && chars_eq(&c, &d)
    }
}

impl PartialEqSpecImpl for LogIdFilter {
    open spec fn obeys_eq_spec() -> bool {
        true
    }

    open spec fn eq_spec(&self, other: &LogIdFilter) -> bool {
        self@ == other@
    }
}

impl Eq for LogIdFilter {

}

impl PartialEq<LogId> for LogIdFilter {
    fn eq(&self, other: &LogId) -> (r: bool) {
        let a = chars_of(self.module.as_str());
        let b = chars_of(other.get_module_path());
        let c = chars_of(self.identifier.as_str());
        let d = chars_of(other.get_identifier());
        chars_eq(&a, &b) && chars_eq(&c, &d)
    }
}

impl PartialEqSpecImpl<LogId> for LogIdFilter {
    open spec fn obeys_eq_spec() -> bool {
        true
    }

    open spec fn eq_spec(&self, other: &LogId) -> bool {
        id_matches(self@, other@)
    }
}

/// The addon kinds listed in `parts`, in order: each piece is trimmed, pieces that name no
/// kind are left out, and `all` stands for every kind.
pub open spec fn addons_of(parts: Seq<Seq<char>>) -> Seq<AddonFilter>
    decreases parts.len(),
{
    if parts.len() == 0 {
        Seq::empty()
    } else {
        let prev = addons_of(parts.drop_last());
        match parse_addon(trim(parts.last())) {
            Some(a) => if a == AddonFilter::AllAllowed {
                prev + all_addons()
            } else {
                prev.push(a)
            },
            None => prev,
        }
    }
}

/// The addon part of `s` and what is left of `s` without it.
///
/// The addon part lies between the first `(` and the first `)`; where both occur and the
/// `(` comes first, its `&`-separated kinds are read and the part, brackets included, is
/// cut out of `s`. Otherwise there are no addons and `s` stays as it is.
pub open spec fn spec_get_addons(s: Seq<char>) -> (Seq<AddonFilter>, Seq<char>) {
    let a = first_index(s, '(');
    let b = first_index(s, ')');
    if a >= 0 && b >= 0 && a < b {
        (addons_of(split_char(s.subrange(a + 1, b), '&')), s.take(a) + s.skip(b + 1))
    } else {
        (Seq::empty(), s)
    }
}

/// Takes the addon part out of `s` and returns its addon kinds (see [`spec_get_addons`]).
pub fn get_addons(s: &mut Vec<char>) -> (r: Vec<AddonFilter>)
    ensures
        (r@, final(s)@) == spec_get_addons(old(s)@),
{
    let mut addons: Vec<AddonFilter> = Vec::new();
    let start = find_char(s, '(');
    let end = find_char(s, ')');
    match (start, end) {
        (Some(a), Some(b)) => {
            if a >= b {
                return addons;
            }
            let inner = copy_range(s, a + 1, b);
            let parts = split_on(&inner, '&');
            let ghost pv = vview(parts@);
            let mut i: usize = 0;
            assert(pv.take(0) =~= Seq::<Seq<char>>::empty());
            while i < parts.len()
                invariant
                    i <= parts.len() == pv.len(),
                    pv == vview(parts@),
                    addons@ == addons_of(pv.take(i as int)),
                decreases parts.len() - i,
            {
                let part = trimmed(&parts[i]);
                assert(pv.take(i + 1).drop_last() =~= pv.take(i as int));
                assert(pv.take(i + 1).last() == pv[i as int]);
                match addon_of_chars(&part) {
                    Some(addon) => push_addon(&mut addons, addon),
                    None => {},
                }
                i = i + 1;
            }
            assert(pv.take(pv.len() as int) =~= pv);
            let rest = cut_range(s, a, b);
            *s = rest;
            addons
        },
        _ => addons,
    }
}

/// A log-id rule together with the addon kinds it allows.
#[derive(Default, Debug, Clone, PartialEq, Eq, PartialOrd, Ord)]
pub struct LogIdAddonFilter {
    log_id: LogIdFilter,
    allowed_addons: Vec<AddonFilter>,
}

/// The mathematical model of a [`LogIdAddonFilter`].
#[verifier::ext_equal]
pub struct LogIdAddonFilterView {
    pub log_id: LogIdFilterView,
    pub addons: Seq<AddonFilter>,
}

impl View for LogIdAddonFilter {
    type V = LogIdAddonFilterView;

    closed spec fn view(&self) -> LogIdAddonFilterView {
        LogIdAddonFilterView { log_id: self.log_id@, addons: self.allowed_addons@ }
    }
}

/// The model of each element of `v`.
pub open spec fn id_rules_view(v: Seq<LogIdAddonFilter>) -> Seq<LogIdAddonFilterView> {
    v.map_values(|f: LogIdAddonFilter| f@)
}

/// The log-id rule with addons written as `v`: the addon part is read and cut out first
/// (see [`spec_get_addons`]), what is left must be a log-id rule.
pub open spec fn parse_addon_id(v: Seq<char>) -> Option<LogIdAddonFilterView> {
    let (addons, rest) = spec_get_addons(v);
    match parse_log_id_filter(rest) {
        Some(f) => Some(LogIdAddonFilterView { log_id: f, addons }),
        None => None,
    }
}

impl LogIdAddonFilter {
    /// Parses the log-id rule with addons `v` (see [`parse_addon_id`]); on failure returns
    /// what was left of `v` once the addon part was cut out.
    pub fn from_chars(v: &Vec<char>) -> (r: Result<LogIdAddonFilter, Vec<char>>)
        ensures
            match r {
                Ok(f) => parse_addon_id(v@) == Some(f@),
                Err(rest) => parse_addon_id(v@) is None && rest@ == spec_get_addons(v@).1,
            },
    {
        let mut stripped = copy_range(v, 0, v.len());
        assert(stripped@ =~= v@);
        let addons = get_addons(&mut stripped);
        match LogIdFilter::from_chars(&stripped) {
            Some(log_id) => Ok(LogIdAddonFilter { log_id, allowed_addons: addons }),
            None => Err(stripped),
        }
    }

    /// Parses the log-id rule with addons `value` (see [`parse_addon_id`]); fails with
    /// [`FilterError::ParsingLogId`] holding what was left of `value` once the addon part
    /// was cut out.
    pub fn try_from(value: &str) -> (r: Result<LogIdAddonFilter, FilterError>)
        ensures
            match r {
                Ok(f) => parse_addon_id(value@) == Some(f@),
                Err(e) => parse_addon_id(value@) is None && (e matches FilterError::ParsingLogId(
                    m,
                ) && m@ == spec_get_addons(value@).1),
            },
    {
        let v = chars_of(value);
        match LogIdAddonFilter::from_chars(&v) {
            Ok(f) => Ok(f),
            Err(rest) => Err(FilterError::ParsingLogId(string_of(&rest))),
        }
    }

    /// The log-id rule.
    pub fn get_log_id(&self) -> (r: &LogIdFilter)
        ensures
            r@ == self@.log_id,
    {
        &self.log_id
    }

    /// The addon kinds allowed for matching log-ids.
    pub fn get_allowed_addons(&self) -> (r: &Vec<AddonFilter>)
        ensures
            r@ == self@.addons,
    {
        &self.allowed_addons
    }
}

/// The log-id rules listed in `parts`, in order: each piece is trimmed and pieces that are
/// no rule are left out.
pub open spec fn ids_of(parts: Seq<Seq<char>>) -> Seq<LogIdAddonFilterView>
    decreases parts.len(),
{
    if parts.len() == 0 {
        Seq::empty()
    } else {
        let prev = ids_of(parts.drop_last());
        match parse_addon_id(trim(parts.last())) {
            Some(f) => prev.push(f),
            None => prev,
        }
    }
}

/// The log-id part of `s` and what is left of `s` without it.
///
/// The log-id part lies between the first `[` and the first `]`; where both occur and the
/// `[` comes first, its `|`-separated rules are read and the part, brackets included, is cut
/// out of `s`. Otherwise there are no rules and `s` stays as it is.
pub open spec fn spec_get_ids(s: Seq<char>) -> (Seq<LogIdAddonFilterView>, Seq<char>) {
    let a = first_index(s, '[');
    let b = first_index(s, ']');
    if a >= 0 && b >= 0 && a < b {
        (ids_of(split_char(s.subrange(a + 1, b), '|')), s.take(a) + s.skip(b + 1))
    } else {
        (Seq::empty(), s)
    }
}

/// Takes the log-id part out of `s` and returns its rules (see [`spec_get_ids`]).
pub fn get_ids(s: &mut Vec<char>) -> (r: Vec<LogIdAddonFilter>)
    ensures
        (id_rules_view(r@), final(s)@) == spec_get_ids(old(s)@),
{
    let mut ids: Vec<LogIdAddonFilter> = Vec::new();
    assert(id_rules_view(ids@) =~= Seq::<LogIdAddonFilterView>::empty());
    let start = find_char(s, '[');
    let end = find_char(s, ']');
    match (start, end) {
        (Some(a), Some(b)) => {
            if a >= b {
                return ids;
            }
            let inner = copy_range(s, a + 1, b);
            let parts = split_on(&inner, '|');
            let ghost pv = vview(parts@);
            let mut i: usize = 0;
            assert(pv.take(0) =~= Seq::<Seq<char>>::empty());
            while i < parts.len()
                invariant
                    i <= parts.len() == pv.len(),
                    pv == vview(parts@),
                    id_rules_view(ids@) == ids_of(pv.take(i as int)),
                decreases parts.len() - i,
            {
                let part = trimmed(&parts[i]);
                assert(pv.take(i + 1).drop_last() =~= pv.take(i as int));
                assert(pv.take(i + 1).last() == pv[i as int]);
                match LogIdAddonFilter::from_chars(&part) {
                    Ok(id) => {
                        let ghost before = id_rules_view(ids@);
                        ids.push(id);
                        assert(id_rules_view(ids@) =~= before.push(id@));
                    },
                    Err(_) => {},
                }
                i = i + 1;
            }
            assert(pv.take(pv.len() as int) =~= pv);
            let rest = cut_range(s, a, b);
            *s = rest;
            ids
        },
        _ => ids,
    }
}

} // verus!
