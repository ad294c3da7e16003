//! Addon kinds a filter may allow, and the errors of the filter syntax.
//!
//! This library is built with hints and notes, diagnostics and payloads as addons: every
//! kind below is accepted in a filter, and the keyword `all` stands for all of them.
//! Messages formatted by a function are not part of it.
use crate::log_id::append_chars;
use crate::text::{chars_eq, chars_of, string_of};
use vstd::prelude::*;

verus! {

/// The kinds of additional information a filter may allow for an event.
#[derive(Debug, Clone, Copy, PartialEq, Eq, Structural, PartialOrd, Ord, Hash)]
pub enum AddonFilter {
    Id,
    Origin,
    Infos,
    Debugs,
    Traces,
    Related,
    AllAllowed,
    Hint,
    Note,
    Diagnostics,
    Payloads,
}

impl Default for AddonFilter {
    fn default() -> (r: Self)
        ensures
            r == AddonFilter::Id,
    {
        AddonFilter::Id
    }
}

/// The keyword that names an addon kind in the filter syntax.
pub open spec fn addon_keyword(a: AddonFilter) -> Seq<char> {
    match a {
        AddonFilter::Id => seq!['i', 'd'],
        AddonFilter::Origin => seq!['o', 'r', 'i', 'g', 'i', 'n'],
        AddonFilter::Infos => seq!['i', 'n', 'f', 'o', 's'],
        AddonFilter::Debugs => seq!['d', 'e', 'b', 'u', 'g', 's'],
        AddonFilter::Traces => seq!['t', 'r', 'a', 'c', 'e', 's'],
        AddonFilter::Related => seq!['r', 'e', 'l', 'a', 't', 'e', 'd'],
        AddonFilter::AllAllowed => seq!['a', 'l', 'l'],
        AddonFilter::Hint => seq!['h', 'i', 'n', 't', 's'],
        AddonFilter::Note => seq!['n', 'o', 't', 'e', 's'],
        AddonFilter::Diagnostics => seq!['d', 'i', 'a', 'g', 'n', 'o', 's', 't', 'i', 'c', 's'],
        AddonFilter::Payloads => seq!['p', 'a', 'y', 'l', 'o', 'a', 'd', 's'],
    }
}

/// The addon kind named by `s`, if any: the keyword must match exactly.
pub open spec fn parse_addon(s: Seq<char>) -> Option<AddonFilter> {
    if s == addon_keyword(AddonFilter::Id) {
        Some(AddonFilter::Id)
    } else if s == addon_keyword(AddonFilter::Origin) {
        Some(AddonFilter::Origin)
    } else if s == addon_keyword(AddonFilter::Infos) {
        Some(AddonFilter::Infos)
    } else if s == addon_keyword(AddonFilter::Debugs) {
        Some(AddonFilter::Debugs)
    } else if s == addon_keyword(AddonFilter::Traces) {
        Some(AddonFilter::Traces)
    } else if s == addon_keyword(AddonFilter::Related) {
        Some(AddonFilter::Related)
    } else if s == addon_keyword(AddonFilter::AllAllowed) {
        Some(AddonFilter::AllAllowed)
    } else if s == addon_keyword(AddonFilter::Hint) {
        Some(AddonFilter::Hint)
    } else if s == addon_keyword(AddonFilter::Note) {
        Some(AddonFilter::Note)
    } else if s == addon_keyword(AddonFilter::Diagnostics) {
        Some(AddonFilter::Diagnostics)
    } else if s == addon_keyword(AddonFilter::Payloads) {
        Some(AddonFilter::Payloads)
    } else {
        None
    }
}

/// The addon kinds that `all` stands for, in the order they are added.
pub open spec fn all_addons() -> Seq<AddonFilter> {
    seq![
        AddonFilter::Id,
        AddonFilter::Origin,
        AddonFilter::Infos,
        AddonFilter::Debugs,
        AddonFilter::Traces,
        AddonFilter::Related,
        AddonFilter::Hint,
        AddonFilter::Note,
        AddonFilter::Diagnostics,
        AddonFilter::Payloads,
    ]
}

/// Errors of the filter syntax and of setting a filter.
#[derive(Debug, Clone)]
pub enum FilterError {
    ParsingLogId(String),
    ParsingAddons(String),
    ParsingModule(String),
    SettingFilter,
}

/// The message a filter error is shown with.
pub open spec fn filter_error_text(e: FilterError) -> Seq<char> {
    match e {
        FilterError::ParsingLogId(bad) => seq!['C', 'o', 'u', 'l', 'd', ' ', 'n', 'o', 't', ' ', 'p', 'a', 'r', 's', 'e', ' ', '\'']
            + bad@ + seq!['\'', ' ', 'a', 's', ' ', '`', 'L', 'o', 'g', 'I', 'd', '`', '.'],
        FilterError::ParsingAddons(bad) => seq!['C', 'o', 'u', 'l', 'd', ' ', 'n', 'o', 't', ' ', 'p', 'a', 'r', 's', 'e', ' ', 'a', 'd', 'd', 'o', 'n', 's', ' ', '\'']
            + bad@ + seq!['\'', '.'],
        FilterError::ParsingModule(bad) => seq!['C', 'o', 'u', 'l', 'd', ' ', 'n', 'o', 't', ' ', 'p', 'a', 'r', 's', 'e', ' ', 'm', 'o', 'd', 'u', 'l', 'e', ' ', '\'']
            + bad@ + seq!['\'', '.'],
        FilterError::SettingFilter => seq!['C', 'o', 'u', 'l', 'd', ' ', 'n', 'o', 't', ' ', 's', 'e', 't', ' ', 't', 'h', 'e', ' ', 'n', 'e', 'w', ' ', 'f', 'i', 'l', 't', 'e', 'r', ' ', 'c', 'o', 'n', 'f', 'i', 'g', 'u', 'r', 'a', 't', 'i', 'o', 'n', '.'],
    }
}

impl FilterError {
    /// The message this error is shown with (see [`filter_error_text`]).
    pub fn to_string(&self) -> (r: String)
        ensures
            r@ == filter_error_text(*self),
    {
        let mut v: Vec<char>;
        match self {
            FilterError::ParsingLogId(bad) => {
                v = vec!['C', 'o', 'u', 'l', 'd', ' ', 'n', 'o', 't', ' ', 'p', 'a', 'r', 's', 'e', ' ', '\''];
                let ghost a = v@;
                append_chars(&mut v, &chars_of(bad.as_str()));
                let tail = vec!['\'', ' ', 'a', 's', ' ', '`', 'L', 'o', 'g', 'I', 'd', '`', '.'];
                let ghost b = tail@;
                append_chars(&mut v, &tail);
                assert(v@ =~= filter_error_text(*self));
            },
            FilterError::ParsingAddons(bad) => {
                v = vec!['C', 'o', 'u', 'l', 'd', ' ', 'n', 'o', 't', ' ', 'p', 'a', 'r', 's', 'e', ' ', 'a', 'd', 'd', 'o', 'n', 's', ' ', '\''];
                append_chars(&mut v, &chars_of(bad.as_str()));
                v.push('\'');
                v.push('.');
                assert(v@ =~= filter_error_text(*self));
            },
            FilterError::ParsingModule(bad) => {
                v = vec!['C', 'o', 'u', 'l', 'd', ' ', 'n', 'o', 't', ' ', 'p', 'a', 'r', 's', 'e', ' ', 'm', 'o', 'd', 'u', 'l', 'e', ' ', '\''];
                append_chars(&mut v, &chars_of(bad.as_str()));
                v.push('\'');
                v.push('.');
                assert(v@ =~= filter_error_text(*self));
            },
            FilterError::SettingFilter => {
                v = vec!['C', 'o', 'u', 'l', 'd', ' ', 'n', 'o', 't', ' ', 's', 'e', 't', ' ', 't', 'h', 'e', ' ', 'n', 'e', 'w', ' ', 'f', 'i', 'l', 't', 'e', 'r', ' ', 'c', 'o', 'n', 'f', 'i', 'g', 'u', 'r', 'a', 't', 'i', 'o', 'n', '.'];
                assert(v@ =~= filter_error_text(*self));
            },
        }
        string_of(&v)
    }
}

/// The keyword that names `a` in the filter syntax.
pub fn keyword(a: AddonFilter) -> (r: Vec<char>)
    ensures
        r@ == addon_keyword(a),
{
    let r = match a {
        AddonFilter::Id => vec!['i', 'd'],
        AddonFilter::Origin => vec!['o', 'r', 'i', 'g', 'i', 'n'],
        AddonFilter::Infos => vec!['i', 'n', 'f', 'o', 's'],
        AddonFilter::Debugs => vec!['d', 'e', 'b', 'u', 'g', 's'],
        AddonFilter::Traces => vec!['t', 'r', 'a', 'c', 'e', 's'],
        AddonFilter::Related => vec!['r', 'e', 'l', 'a', 't', 'e', 'd'],
        AddonFilter::AllAllowed => vec!['a', 'l', 'l'],
        AddonFilter::Hint => vec!['h', 'i', 'n', 't', 's'],
        AddonFilter::Note => vec!['n', 'o', 't', 'e', 's'],
        AddonFilter::Diagnostics => vec!['d', 'i', 'a', 'g', 'n', 'o', 's', 't', 'i', 'c', 's'],
        AddonFilter::Payloads => vec!['p', 'a', 'y', 'l', 'o', 'a', 'd', 's'],
    };
    proof {
        assert(r@ =~= addon_keyword(a));
    }
    r
}

/// The addon kind named by `s` (see [`parse_addon`]).
pub fn addon_of_chars(s: &Vec<char>) -> (r: Option<AddonFilter>)
    ensures
        r == parse_addon(s@),
{
    if chars_eq(s, &keyword(AddonFilter::Id)) {
        Some(AddonFilter::Id)
    } else if chars_eq(s, &keyword(AddonFilter::Origin)) {
        Some(AddonFilter::Origin)
    } else if chars_eq(s, &keyword(AddonFilter::Infos)) {
        Some(AddonFilter::Infos)
    } else if chars_eq(s, &keyword(AddonFilter::Debugs)) {
        Some(AddonFilter::Debugs)
    } else if chars_eq(s, &keyword(AddonFilter::Traces)) {
        Some(AddonFilter::Traces)
    } else if chars_eq(s, &keyword(AddonFilter::Related)) {
        Some(AddonFilter::Related)
    } else if chars_eq(s, &keyword(AddonFilter::AllAllowed)) {
        Some(AddonFilter::AllAllowed)
    } else if chars_eq(s, &keyword(AddonFilter::Hint)) {
        Some(AddonFilter::Hint)
    } else if chars_eq(s, &keyword(AddonFilter::Note)) {
        Some(AddonFilter::Note)
    } else if chars_eq(s, &keyword(AddonFilter::Diagnostics)) {
        Some(AddonFilter::Diagnostics)
    } else if chars_eq(s, &keyword(AddonFilter::Payloads)) {
        Some(AddonFilter::Payloads)
    } else {
        None
    }
}

impl AddonFilter {
    /// Parses the keyword `value` of an addon kind; fails with
    /// [`FilterError::ParsingAddons`] holding `value` where it names none.
    pub fn try_from(value: &str) -> (r: Result<AddonFilter, FilterError>)
        ensures
            match r {
                Ok(a) => parse_addon(value@) == Some(a),
                Err(e) => parse_addon(value@) is None && (e matches FilterError::ParsingAddons(
                    m,
                ) && m@ == value@),
            },
    {
        let v = chars_of(value);
        match addon_of_chars(&v) {
            Some(a) => Ok(a),
            None => Err(FilterError::ParsingAddons(value.to_owned())),
        }
    }
}

/// Every addon kind's keyword names that kind.
pub proof fn lemma_addon_keyword_roundtrip(a: AddonFilter)
    ensures
        parse_addon(addon_keyword(a)) == Some(a),
{
    let k = addon_keyword(a);
    assert(addon_keyword(AddonFilter::Id).len() == 2);
    assert(addon_keyword(AddonFilter::Origin)[0] == 'o');
    assert(addon_keyword(AddonFilter::Infos)[0] == 'i');
    assert(addon_keyword(AddonFilter::Debugs)[0] == 'd');
    assert(addon_keyword(AddonFilter::Traces)[0] == 't');
    assert(addon_keyword(AddonFilter::Related).len() == 7);
    assert(addon_keyword(AddonFilter::AllAllowed).len() == 3);
    assert(addon_keyword(AddonFilter::Hint)[0] == 'h');
    assert(addon_keyword(AddonFilter::Note)[0] == 'n');
    assert(addon_keyword(AddonFilter::Diagnostics).len() == 11);
    assert(addon_keyword(AddonFilter::Payloads).len() == 8);
    assert(k[0] == addon_keyword(a)[0]);
}

/// The addon kinds of `v`, in order, where `all` is replaced by every kind it stands for.
pub fn push_addon(addons: &mut Vec<AddonFilter>, a: AddonFilter)
    ensures
        final(addons)@ == (if a == AddonFilter::AllAllowed {
            old(addons)@ + all_addons()
        } else {
            old(addons)@.push(a)
        }),
{
    if a == AddonFilter::AllAllowed {
        addons.push(AddonFilter::Id);
        addons.push(AddonFilter::Origin);
        addons.push(AddonFilter::Infos);
        addons.push(AddonFilter::Debugs);
        addons.push(AddonFilter::Traces);
        addons.push(AddonFilter::Related);
        addons.push(AddonFilter::Hint);
        addons.push(AddonFilter::Note);
        addons.push(AddonFilter::Diagnostics);
        addons.push(AddonFilter::Payloads);
        assert(addons@ =~= old(addons)@ + all_addons());
    } else {
        addons.push(a);
    }
}

/// `addons` holds `a`.
pub fn contains_addon(addons: &Vec<AddonFilter>, a: AddonFilter) -> (r: bool)
    ensures
        r == addons@.contains(a),
{
    let mut i: usize = 0;
    while i < addons.len()
        invariant
            i <= addons.len(),
            forall|j: int| 0 <= j < i ==> addons@[j] != a,
        decreases addons.len() - i,
    {
        if addons[i] == a {
            assert(addons@[i as int] == a);
            return true;
        }
        i = i + 1;
    }
    false
}

} // verus!
