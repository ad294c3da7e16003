//! What holds of every filter text: the promises of the filter syntax.
use super::config::{
    FilterConfigView, config_allows_addon, config_allows_entry, config_fold, config_step, handler_module, initial_config, off_config,
    parse_filter_config,
};
use super::ids::{
    LogIdAddonFilterView, LogIdFilterView, ids_of, parse_addon_id, parse_log_id_filter,
    spec_get_addons, spec_get_ids,
};
use super::addon::{AddonFilter, addon_keyword, all_addons, lemma_addon_keyword_roundtrip};
use super::module::{id_allowed, level_keyword, parse_level, parse_module};
use crate::log_id::{LogIdView, LogLevel, level_le};
use crate::text::{
    has_prefix, is_space, join_path, lemma_first_index_absent, lemma_first_index_found,
    lemma_join_split_path_acc, lemma_split_acc_no_sep, lemma_split_path_acc_nonempty,
    lemma_split_path_append, lemma_trim_unchanged, lower_eq, lower_matches, split_acc,
    split_char, split_path, trim, trim_start,
};
use crate::logging::crate_filter;
use vstd::prelude::*;

verus! {

/// The text holds none of the characters that structure a filter: `,`, `[`, `]`, `|`, `(`, `)`.
pub open spec fn no_filter_syntax(t: Seq<char>) -> bool {
    forall|j: int|
        0 <= j < t.len() ==> t[j] != ',' && t[j] != '[' && t[j] != ']' && t[j] != '|' && t[j]
            != '(' && t[j] != ')'
}

/// `m::i` writes the log-id with module path `m` and identifier `i`: the identifier holds no
/// `:`, the module path does not end in `:`, and every piece of the module path and the
/// identifier hold a non-blank character.
pub open spec fn writable_log_id(m: Seq<char>, i: Seq<char>) -> bool {
    &&& forall|j: int| 0 <= j < i.len() ==> i[j] != ':'
    &&& !(m.len() > 0 && m.last() == ':')
    &&& forall|k: int| 0 <= k < split_path(m).len() ==> #[trigger] trim(split_path(m)[k]).len() != 0
    &&& trim(i).len() != 0
}

/// A log-id rule reads back the module path and identifier it was written from.
pub proof fn lemma_log_id_rule_roundtrip(m: Seq<char>, i: Seq<char>)
    requires
        writable_log_id(m, i),
    ensures
        parse_log_id_filter(m + seq![':', ':'] + i) == Some(
            LogIdFilterView { module: m, identifier: i },
        ),
{
    let v = m + seq![':', ':'] + i;
    lemma_split_path_append(m, i, Seq::empty());
    lemma_split_path_acc_nonempty(m, Seq::empty());
    let parts = split_path(v);
    assert(parts == split_path(m) + seq![i]);
    assert(parts.drop_last() =~= split_path(m));
    assert(parts.last() == i);
    assert forall|k: int| 0 <= k < parts.len() implies #[trigger] trim(parts[k]).len() != 0 by {
        if k < parts.len() - 1 {
            assert(parts[k] == split_path(m)[k]);
        }
    }
    lemma_join_split_path_acc(m, Seq::empty());
    assert(Seq::<char>::empty() + m =~= m);
}

/// A log-id rule that is read joins back to the text it was read from.
pub proof fn lemma_log_id_rule_joins(v: Seq<char>)
    requires
        parse_log_id_filter(v) is Some,
    ensures
        parse_log_id_filter(v)->0.module + seq![':', ':'] + parse_log_id_filter(v)->0.identifier
            == v,
{
    let parts = split_path(v);
    lemma_join_split_path_acc(v, Seq::empty());
    assert(Seq::<char>::empty() + v =~= v);
    assert(join_path(parts) == join_path(parts.drop_last()) + seq![':', ':'] + parts.last());
}

/// A filter that is blank, or `off` in any ASCII case, allows only the events of the event
/// handler.
pub proof fn lemma_off_filter_allows_handler_only(s: Seq<char>, id: LogIdView, origin: Seq<char>)
    requires
        trim(s).len() == 0 || lower_eq(s, seq!['o', 'f', 'f']),
    ensures
        config_allows_entry(parse_filter_config(s), id, origin) == has_prefix(
            origin,
            handler_module(),
        ),
{
    let c = parse_filter_config(s);
    assert(c == off_config());
    assert(!id_allowed(c.global_ids, id));
}

/// A level keyword names its level.
pub proof fn lemma_level_keyword_roundtrip(l: LogLevel)
    ensures
        parse_level(level_keyword(l)) == Some(l),
{
    let k = level_keyword(l);
    assert(lower_eq(k, k));
    match l {
        LogLevel::Error => {},
        LogLevel::Warn => {
            assert(!lower_matches(k[0], 'e'));
        },
        LogLevel::Info => {
            assert(!lower_matches(k[0], 'e'));
            assert(!lower_matches(k[0], 'w'));
        },
        LogLevel::Debug => {
            assert(!lower_matches(k[0], 'e'));
            assert(!lower_matches(k[0], 'w'));
            assert(!lower_matches(k[0], 'i'));
        },
        LogLevel::Trace => {
            assert(!lower_matches(k[0], 'e'));
            assert(!lower_matches(k[0], 'w'));
            assert(!lower_matches(k[0], 'i'));
            assert(!lower_matches(k[0], 'd'));
        },
    }
}

/// A filter that is a level keyword allows exactly the events of that level or a more severe
/// one, and the events of the event handler.
pub proof fn lemma_level_filter(l: LogLevel, id: LogIdView, origin: Seq<char>)
    ensures
        config_allows_entry(parse_filter_config(level_keyword(l)), id, origin) == (has_prefix(
            origin,
            handler_module(),
        ) || level_le(l, id.level)),
{
    let k = level_keyword(l);
    assert(k.len() >= 4);
    assert forall|j: int| 0 <= j < k.len() implies k[j] != ',' && k[j] != '[' && k[j] != '('
        && k[j] != ')' by {}
    lemma_trim_unchanged(k);
    assert(!lower_eq(k, seq!['o', 'f', 'f']));
    lemma_split_acc_no_sep(k, ',', Seq::empty());
    assert(Seq::<char>::empty() + k =~= k);
    let parts = split_char(k, ',');
    assert(parts == seq![k]);
    assert(parts.drop_last() =~= Seq::<Seq<char>>::empty());
    lemma_first_index_absent(k, '[');
    lemma_first_index_absent(k, '(');
    assert(spec_get_ids(k) == (Seq::<LogIdAddonFilterView>::empty(), k));
    assert(!has_prefix(k, seq!['o', 'n']));
    assert(spec_get_addons(k) == (Seq::<super::addon::AddonFilter>::empty(), k));
    lemma_level_keyword_roundtrip(l);
    assert(config_fold(parts.drop_last()) == initial_config());
    assert(parts.last() == k);
    assert(config_fold(parts) == config_step(config_fold(parts.drop_last()), parts.last()));
    let c = parse_filter_config(k);
    assert(c == config_step(initial_config(), k));
    assert(c.modules.len() == 0);
    assert(c.global_ids.len() == 0);
    assert(!c.no_general_logging && c.general_level == l);
}

/// The keyword of `l` in upper case.
pub open spec fn level_keyword_upper(l: LogLevel) -> Seq<char> {
    match l {
        LogLevel::Error => seq!['E', 'R', 'R', 'O', 'R'],
        LogLevel::Warn => seq!['W', 'A', 'R', 'N'],
        LogLevel::Info => seq!['I', 'N', 'F', 'O'],
        LogLevel::Debug => seq!['D', 'E', 'B', 'U', 'G'],
        LogLevel::Trace => seq!['T', 'R', 'A', 'C', 'E'],
    }
}

/// `s` is the word `lower` with any of its letters written as in `upper`, its upper-case form.
pub open spec fn in_any_case(s: Seq<char>, lower: Seq<char>, upper: Seq<char>) -> bool {
    &&& s.len() == lower.len()
    &&& forall|i: int| 0 <= i < s.len() ==> s[i] == lower[i] || s[i] == upper[i]
}

/// Level keywords are read whatever the ASCII case of their letters: `WARN`, `Warn` and
/// `warn` all name the level warn.
pub proof fn lemma_level_keyword_any_case(l: LogLevel, s: Seq<char>)
    requires
        in_any_case(s, level_keyword(l), level_keyword_upper(l)),
    ensures
        parse_level(s) == Some(l),
{
    let k = level_keyword(l);
    let u = level_keyword_upper(l);
    assert forall|i: int| 0 <= i < k.len() implies crate::text::ascii_upper(k[i]) == u[i] by {}
    assert(lower_eq(s, k));
    assert(s.len() >= 4);
    match l {
        LogLevel::Error => {},
        LogLevel::Warn => {},
        LogLevel::Info => {
            assert(!lower_matches(s[0], 'w'));
        },
        LogLevel::Debug => {
            assert(!lower_matches(s[0], 'e'));
        },
        LogLevel::Trace => {
            assert(!lower_matches(s[0], 'e'));
            assert(!lower_matches(s[0], 'd'));
        },
    }
}

/// A filter that is a level keyword in any ASCII case allows exactly the events of that level
/// or a more severe one, and the events of the event handler: `WARN` allows the warn and
/// error events.
pub proof fn lemma_level_filter_any_case(l: LogLevel, s: Seq<char>, id: LogIdView, origin: Seq<char>)
    requires
        in_any_case(s, level_keyword(l), level_keyword_upper(l)),
    ensures
        config_allows_entry(parse_filter_config(s), id, origin) == (has_prefix(
            origin,
            handler_module(),
        ) || level_le(l, id.level)),
{
    let k = level_keyword(l);
    let u = level_keyword_upper(l);
    assert(s.len() >= 4);
    assert forall|j: int| 0 <= j < s.len() implies s[j] != ',' && s[j] != '[' && s[j] != '('
        && s[j] != ')' && !is_space(s[j]) by {
        assert(s[j] == k[j] || s[j] == u[j]);
    }
    lemma_trim_unchanged(s);
    assert(!lower_eq(s, seq!['o', 'f', 'f']));
    lemma_split_acc_no_sep(s, ',', Seq::empty());
    assert(Seq::<char>::empty() + s =~= s);
    let parts = split_char(s, ',');
    assert(parts == seq![s]);
    assert(parts.drop_last() =~= Seq::<Seq<char>>::empty());
    lemma_first_index_absent(s, '[');
    lemma_first_index_absent(s, '(');
    assert(spec_get_ids(s) == (Seq::<LogIdAddonFilterView>::empty(), s));
    assert(spec_get_addons(s) == (Seq::<AddonFilter>::empty(), s));
    lemma_level_keyword_any_case(l, s);
    assert(config_fold(parts.drop_last()) == initial_config());
    assert(parts.last() == s);
    assert(config_fold(parts) == config_step(config_fold(parts.drop_last()), parts.last()));
    let c = parse_filter_config(s);
    assert(c == config_step(initial_config(), s));
    assert(c.modules.len() == 0);
    assert(c.global_ids.len() == 0);
    assert(!c.no_general_logging && c.general_level == l);
}

/// The filter `off` in any ASCII case allows only the events of the event handler.
pub proof fn lemma_off_filter_any_case(s: Seq<char>, id: LogIdView, origin: Seq<char>)
    requires
        in_any_case(s, seq!['o', 'f', 'f'], seq!['O', 'F', 'F']),
    ensures
        config_allows_entry(parse_filter_config(s), id, origin) == has_prefix(origin, handler_module()),
{
    assert(lower_eq(s, seq!['o', 'f', 'f']));
    lemma_off_filter_allows_handler_only(s, id, origin);
}

/// The logger's filter `info` logs every info, warn and error event: such an event passes
/// the level gate, and the configuration `info` allows it.
pub proof fn lemma_info_filter_logs(id: LogIdView, origin: Seq<char>)
    requires
        id.level == LogLevel::Info || id.level == LogLevel::Warn || id.level == LogLevel::Error,
    ensures
        super::log_filter::level_enabled(id.level),
        config_allows_entry(parse_filter_config(level_keyword(LogLevel::Info)), id, origin),
{
    super::log_filter::lemma_level_gate(id.level);
    lemma_level_filter(LogLevel::Info, id, origin);
}

/// The filter `on` logs at the lowest level: it allows every event.
pub proof fn lemma_on_filter(id: LogIdView, origin: Seq<char>)
    ensures
        config_allows_entry(parse_filter_config(seq!['o', 'n']), id, origin),
        level_le(LogLevel::Trace, id.level),
{
    let s = seq!['o', 'n'];
    assert(!is_space(s[0]) && !is_space(s[1]));
    lemma_trim_unchanged(s);
    assert(!lower_eq(s, seq!['o', 'f', 'f']));
    assert(forall|j: int| 0 <= j < s.len() ==> s[j] != ',');
    lemma_split_acc_no_sep(s, ',', Seq::empty());
    assert(Seq::<char>::empty() + s =~= s);
    let parts = split_char(s, ',');
    assert(parts == seq![s]);
    assert(parts.drop_last() =~= Seq::<Seq<char>>::empty());
    assert(config_fold(parts.drop_last()) == initial_config());
    assert(parts.last() == s);
    assert(config_fold(parts) == config_step(config_fold(parts.drop_last()), parts.last()));
    lemma_first_index_absent(s, '[');
    lemma_first_index_absent(s, '(');
    assert(spec_get_ids(s) == (Seq::<LogIdAddonFilterView>::empty(), s));
    assert(spec_get_addons(s) == (Seq::<AddonFilter>::empty(), s));
    assert(lower_eq(s, seq!['o', 'n']));
    assert(!lower_matches(s[0], 'e'));
    assert(!lower_matches(s[0], 'w'));
    assert(!lower_matches(s[0], 'i'));
    assert(!lower_matches(s[0], 'd'));
    assert(parse_level(trim(s)) == Some(LogLevel::Trace));
    let c = parse_filter_config(s);
    assert(c == config_step(initial_config(), s));
    assert(!c.no_general_logging && c.general_level == LogLevel::Trace);
}

/// The filter text `on[m::i]`.
pub open spec fn global_id_filter(m: Seq<char>, i: Seq<char>) -> Seq<char> {
    seq!['o', 'n', '['] + m + seq![':', ':'] + i + seq![']']
}

/// The filter `on[m::i]` allows every event whose log-id has module path `m` and identifier
/// `i`, whatever its level and origin.
pub proof fn lemma_global_id_filter_allows(m: Seq<char>, i: Seq<char>, id: LogIdView, origin: Seq<char>)
    requires
        writable_log_id(m, i),
        no_filter_syntax(m),
        no_filter_syntax(i),
        m.len() > 0 && !is_space(m[0]),
        i.len() > 0 && !is_space(i.last()),
        id.module == m,
        id.identifier == i,
    ensures
        config_allows_entry(parse_filter_config(global_id_filter(m, i)), id, origin),
{
    let inner = m + seq![':', ':'] + i;
    let s = global_id_filter(m, i);
    assert(s =~= seq!['o', 'n', '['] + inner + seq![']']);
    let n = s.len();
    assert(n == inner.len() + 4);
    assert forall|j: int| 0 <= j < inner.len() implies inner[j] != ',' && inner[j] != '['
        && inner[j] != ']' && inner[j] != '|' && inner[j] != '(' && inner[j] != ')' by {
        if j < m.len() {
            assert(inner[j] == m[j]);
        } else if j >= m.len() + 2 {
            assert(inner[j] == i[j - m.len() - 2]);
        }
    }
    assert forall|j: int| 0 <= j < n implies s[j] != ',' by {
        if 3 <= j < n - 1 {
            assert(s[j] == inner[j - 3]);
        }
    }
    // the filter is no blank or `off` filter and has a single part
    lemma_trim_unchanged(s);
    assert(!lower_eq(s, seq!['o', 'f', 'f']));
    lemma_split_acc_no_sep(s, ',', Seq::empty());
    assert(Seq::<char>::empty() + s =~= s);
    let parts = split_char(s, ',');
    assert(parts == seq![s]);
    assert(parts.drop_last() =~= Seq::<Seq<char>>::empty());
    assert(config_fold(parts.drop_last()) == initial_config());
    assert(parts.last() == s);
    assert(config_fold(parts) == config_step(config_fold(parts.drop_last()), parts.last()));
    assert(parse_filter_config(s) == config_step(initial_config(), s));
    // the log-id part is `m::i`
    lemma_first_index_found(s, '[', 2);
    assert forall|j: int| 0 <= j < n - 1 implies s[j] != ']' by {
        if 3 <= j {
            assert(s[j] == inner[j - 3]);
        }
    }
    lemma_first_index_found(s, ']', n - 1);
    assert(s.subrange(3, n - 1) =~= inner);
    lemma_split_acc_no_sep(inner, '|', Seq::empty());
    assert(Seq::<char>::empty() + inner =~= inner);
    let id_parts = split_char(inner, '|');
    assert(id_parts == seq![inner]);
    assert(id_parts.drop_last() =~= Seq::<Seq<char>>::empty());
    assert(inner[0] == m[0]);
    assert(inner.last() == i.last());
    lemma_trim_unchanged(inner);
    lemma_first_index_absent(inner, '(');
    assert(spec_get_addons(inner) == (Seq::<super::addon::AddonFilter>::empty(), inner));
    lemma_log_id_rule_roundtrip(m, i);
    let rule = LogIdAddonFilterView {
        log_id: LogIdFilterView { module: m, identifier: i },
        addons: Seq::empty(),
    };
    assert(parse_addon_id(inner) == Some(rule));
    assert(ids_of(id_parts.drop_last()) =~= Seq::<LogIdAddonFilterView>::empty());
    assert(id_parts.last() == inner);
    assert(trim(inner) == inner);
    assert(ids_of(id_parts) =~= seq![rule]);
    let (ids, rest) = spec_get_ids(s);
    assert(ids == seq![rule]);
    assert(rest =~= seq!['o', 'n']);
    assert(rest.take(2) =~= seq!['o', 'n']);
    assert(has_prefix(rest, seq!['o', 'n']));
    let c = parse_filter_config(s);
    assert(c.global_ids =~= seq![rule]);
    assert(super::ids::id_matches(c.global_ids[0].log_id, id));
}

/// The filter text `on[m::i(<addon>)]`.
pub open spec fn global_id_addon_filter(m: Seq<char>, i: Seq<char>, a: AddonFilter) -> Seq<char> {
    seq!['o', 'n', '['] + m + seq![':', ':'] + i + seq!['('] + addon_keyword(a) + seq![')', ']']
}

/// The addon kinds the keyword of `a` allows: every kind for `all`, `a` itself otherwise.
pub open spec fn kinds_of_keyword(a: AddonFilter) -> Seq<AddonFilter> {
    if a == AddonFilter::AllAllowed {
        all_addons()
    } else {
        seq![a]
    }
}

/// Cutting the addon part out of `li(<addon>)` leaves `li` and gives the kinds the addon's
/// keyword names, where `li` holds no bracket.
proof fn lemma_addon_part(li: Seq<char>, a: AddonFilter)
    requires
        forall|j: int| 0 <= j < li.len() ==> li[j] != '(' && li[j] != ')',
    ensures
        spec_get_addons(li + seq!['('] + addon_keyword(a) + seq![')']) == (kinds_of_keyword(a), li),
{
    let k = addon_keyword(a);
    let inner = li + seq!['('] + k + seq![')'];
    let p = li.len() as int;
    assert(k.len() >= 2);
    assert forall|j: int| 0 <= j < k.len() implies k[j] != '(' && k[j] != ')' && k[j] != '&'
        && !is_space(k[j]) by {}
    assert(inner[p] == '(');
    assert forall|j: int| 0 <= j < p implies inner[j] != '(' by {
        assert(inner[j] == li[j]);
    }
    lemma_first_index_found(inner, '(', p);
    assert forall|j: int| 0 <= j < inner.len() - 1 implies inner[j] != ')' by {
        if j < p {
            assert(inner[j] == li[j]);
        } else if j > p {
            assert(inner[j] == k[j - p - 1]);
        }
    }
    lemma_first_index_found(inner, ')', inner.len() - 1);
    assert(inner.subrange(p + 1, inner.len() - 1) =~= k);
    lemma_split_acc_no_sep(k, '&', Seq::empty());
    assert(Seq::<char>::empty() + k =~= k);
    let addon_parts = split_char(k, '&');
    assert(addon_parts == seq![k]);
    assert(addon_parts.drop_last() =~= Seq::<Seq<char>>::empty());
    assert(!is_space(k[0]));
    assert(!is_space(k[k.len() - 1]));
    lemma_trim_unchanged(k);
    lemma_addon_keyword_roundtrip(a);
    assert(super::ids::addons_of(addon_parts.drop_last()) =~= Seq::<AddonFilter>::empty());
    assert(addon_parts.last() == k);
    assert(trim(k) == k);
    if a == AddonFilter::AllAllowed {
        assert(Seq::<AddonFilter>::empty() + all_addons() =~= all_addons());
    } else {
        assert(Seq::<AddonFilter>::empty().push(a) =~= seq![a]);
    }
    assert(super::ids::addons_of(addon_parts) =~= kinds_of_keyword(a));
    assert(inner.take(p) + inner.skip(inner.len() as int) =~= li);
}

/// The filter `on[m::i(<addon>)]` allows, for every event whose log-id has module path `m`
/// and identifier `i`, the addons of the kinds the addon's keyword names, whatever the
/// event's level and origin.
pub proof fn lemma_global_id_addon_allows(
    m: Seq<char>,
    i: Seq<char>,
    a: AddonFilter,
    b: AddonFilter,
    id: LogIdView,
    origin: Seq<char>,
)
    requires
        writable_log_id(m, i),
        no_filter_syntax(m),
        no_filter_syntax(i),
        m.len() > 0 && !is_space(m[0]),
        i.len() > 0 && !is_space(i.last()),
        id.module == m,
        id.identifier == i,
        kinds_of_keyword(a).contains(b),
    ensures
        config_allows_addon(parse_filter_config(global_id_addon_filter(m, i, a)), id, origin, b),
{
    let k = addon_keyword(a);
    let li = m + seq![':', ':'] + i;
    let inner = li + seq!['('] + k + seq![')'];
    let s = global_id_addon_filter(m, i, a);
    assert(s =~= seq!['o', 'n', '['] + inner + seq![']']);
    assert(k.len() >= 2);
    assert forall|j: int| 0 <= j < k.len() implies k[j] != ',' && k[j] != '[' && k[j] != ']'
        && k[j] != '|' && k[j] != '(' && k[j] != ')' by {}
    assert forall|j: int| 0 <= j < li.len() implies li[j] != ',' && li[j] != '[' && li[j] != ']'
        && li[j] != '|' && li[j] != '(' && li[j] != ')' by {
        if j < m.len() {
            assert(li[j] == m[j]);
        } else if j >= m.len() + 2 {
            assert(li[j] == i[j - m.len() - 2]);
        }
    }
    let p = li.len() as int;
    assert forall|j: int| 0 <= j < inner.len() implies inner[j] != ',' && inner[j] != '['
        && inner[j] != ']' && inner[j] != '|' by {
        if j < p {
            assert(inner[j] == li[j]);
        } else if p < j < inner.len() - 1 {
            assert(inner[j] == k[j - p - 1]);
        }
    }
    assert(inner[0] == m[0]);
    assert(inner.last() == ')');
    lemma_trim_unchanged(inner);
    lemma_addon_part(li, a);
    lemma_log_id_rule_roundtrip(m, i);
    let rule = LogIdAddonFilterView {
        log_id: LogIdFilterView { module: m, identifier: i },
        addons: kinds_of_keyword(a),
    };
    assert(parse_addon_id(inner) == Some(rule));
    lemma_single_global_rule(inner, rule);
    let c = parse_filter_config(s);
    assert(c.global_ids =~= seq![rule]);
    assert(super::ids::id_matches(c.global_ids[0].log_id, id));
    assert(c.global_ids[0].addons.contains(b));
    assert(super::module::addon_allowed(c.global_ids, id, b));
}

/// The filter `on[<rule>]` holds the one global log-id rule it writes, where the rule holds
/// none of `,`, `[`, `]` and `|` and neither begins nor ends with whitespace.
proof fn lemma_single_global_rule(inner: Seq<char>, rule: LogIdAddonFilterView)
    requires
        forall|j: int| 0 <= j < inner.len() ==> inner[j] != ',' && inner[j] != '[' && inner[j]
            != ']' && inner[j] != '|',
        inner.len() > 0,
        trim(inner) == inner,
        parse_addon_id(inner) == Some(rule),
    ensures
        parse_filter_config(seq!['o', 'n', '['] + inner + seq![']']).global_ids == seq![rule],
{
    let s = seq!['o', 'n', '['] + inner + seq![']'];
    let n = s.len();
    assert forall|j: int| 0 <= j < n implies s[j] != ',' by {
        if 3 <= j < n - 1 {
            assert(s[j] == inner[j - 3]);
        }
    }
    lemma_trim_unchanged(s);
    assert(!lower_eq(s, seq!['o', 'f', 'f']));
    lemma_split_acc_no_sep(s, ',', Seq::empty());
    assert(Seq::<char>::empty() + s =~= s);
    let parts = split_char(s, ',');
    assert(parts == seq![s]);
    assert(parts.drop_last() =~= Seq::<Seq<char>>::empty());
    assert(config_fold(parts.drop_last()) == initial_config());
    assert(parts.last() == s);
    assert(config_fold(parts) == config_step(config_fold(parts.drop_last()), parts.last()));
    assert(parse_filter_config(s) == config_step(initial_config(), s));
    lemma_first_index_found(s, '[', 2);
    assert forall|j: int| 0 <= j < n - 1 implies s[j] != ']' by {
        if 3 <= j {
            assert(s[j] == inner[j - 3]);
        }
    }
    lemma_first_index_found(s, ']', n - 1);
    assert(s.subrange(3, n - 1) =~= inner);
    lemma_split_acc_no_sep(inner, '|', Seq::empty());
    assert(Seq::<char>::empty() + inner =~= inner);
    let id_parts = split_char(inner, '|');
    assert(id_parts == seq![inner]);
    assert(id_parts.drop_last() =~= Seq::<Seq<char>>::empty());
    assert(ids_of(id_parts.drop_last()) =~= Seq::<LogIdAddonFilterView>::empty());
    assert(id_parts.last() == inner);
    assert(ids_of(id_parts) =~= seq![rule]);
    let (ids, rest) = spec_get_ids(s);
    assert(ids == seq![rule]);
    assert(rest =~= seq!['o', 'n']);
    assert(rest.take(2) =~= seq!['o', 'n']);
    assert(has_prefix(rest, seq!['o', 'n']));
    let c = parse_filter_config(s);
    assert(c.global_ids =~= Seq::<LogIdAddonFilterView>::empty() + seq![rule]);
}

/// A filter text without commas that is not blank, does not begin or end with whitespace
/// and is longer than `off` is read as one part.
proof fn lemma_one_part(s: Seq<char>)
    requires
        s.len() > 3,
        !is_space(s[0]),
        !is_space(s.last()),
        forall|j: int| 0 <= j < s.len() ==> s[j] != ',',
    ensures
        parse_filter_config(s) == config_step(initial_config(), s),
{
    lemma_trim_unchanged(s);
    assert(!lower_eq(s, seq!['o', 'f', 'f']));
    lemma_split_acc_no_sep(s, ',', Seq::empty());
    assert(Seq::<char>::empty() + s =~= s);
    let parts = split_char(s, ',');
    assert(parts == seq![s]);
    assert(parts.drop_last() =~= Seq::<Seq<char>>::empty());
    assert(config_fold(parts.drop_last()) == initial_config());
    assert(parts.last() == s);
    assert(config_fold(parts) == config_step(config_fold(parts.drop_last()), parts.last()));
}

/// The filter text `<level>(<addon>)`.
pub open spec fn level_addon_filter(l: LogLevel, a: AddonFilter) -> Seq<char> {
    level_keyword(l) + seq!['('] + addon_keyword(a) + seq![')']
}

/// The filter `<level>(<addon>)` allows the events of that level or a more severe one and
/// those of the event handler, and, for every event, the addons of the kinds the addon's
/// keyword names.
pub proof fn lemma_level_addon_filter(l: LogLevel, a: AddonFilter, b: AddonFilter, id: LogIdView, origin: Seq<char>)
    requires
        kinds_of_keyword(a).contains(b),
    ensures
        config_allows_entry(parse_filter_config(level_addon_filter(l, a)), id, origin) == (
        has_prefix(origin, handler_module()) || level_le(l, id.level)),
        config_allows_addon(parse_filter_config(level_addon_filter(l, a)), id, origin, b),
{
    let lk = level_keyword(l);
    let k = addon_keyword(a);
    let s = level_addon_filter(l, a);
    let n = s.len();
    assert(lk.len() >= 4 && lk.len() <= 5);
    assert(k.len() >= 2);
    assert forall|j: int| 0 <= j < lk.len() implies lk[j] != '(' && lk[j] != ')' && !is_space(lk[j]) by {}
    assert forall|j: int| 0 <= j < n implies s[j] != ',' && s[j] != '[' by {
        if j < lk.len() {
            assert(s[j] == lk[j]);
        } else if lk.len() < j < n - 1 {
            assert(s[j] == k[j - lk.len() - 1]);
        }
    }
    assert(s[0] == lk[0]);
    assert(s.last() == ')');
    assert(s.len() > 3);
    lemma_one_part(s);
    lemma_first_index_absent(s, '[');
    assert(spec_get_ids(s) == (Seq::<LogIdAddonFilterView>::empty(), s));
    lemma_addon_part(lk, a);
    assert(spec_get_addons(s) == (kinds_of_keyword(a), lk));
    assert(!is_space(lk[lk.len() - 1]));
    lemma_trim_unchanged(lk);
    lemma_level_keyword_roundtrip(l);
    let c = parse_filter_config(s);
    assert(c == config_step(initial_config(), s));
    assert(!c.no_general_logging && c.general_level == l);
    assert(c.general_addons == kinds_of_keyword(a));
    assert(c.modules.len() == 0);
    assert(c.global_ids.len() == 0);
    assert(!id_allowed(c.global_ids, id));
}

/// Splitting text that begins with a piece holding no separator carries that piece over.
proof fn lemma_split_acc_prefix(x: Seq<char>, y: Seq<char>, sep: char, cur: Seq<char>)
    requires
        forall|j: int| 0 <= j < x.len() ==> x[j] != sep,
    ensures
        split_acc(x + y, sep, cur) == split_acc(y, sep, cur + x),
    decreases x.len(),
{
    if x.len() == 0 {
        assert(x + y =~= y);
        assert(cur + x =~= cur);
    } else {
        assert((x + y).drop_first() =~= x.drop_first() + y);
        assert((x + y)[0] == x[0]);
        lemma_split_acc_prefix(x.drop_first(), y, sep, cur.push(x[0]));
        assert(cur.push(x[0]) + x.drop_first() =~= cur + x);
    }
}

/// The filter text `m = <level>`: a module rule for module path `m` at level `l`.
pub open spec fn module_level_filter(m: Seq<char>, l: LogLevel) -> Seq<char> {
    m + seq![' ', '=', ' '] + level_keyword(l)
}

/// The rule that the filter `m = <level>` holds: logging at that level in module `m`, with
/// no log-ids and no addons.
pub open spec fn plain_module_rule(m: Seq<char>, l: LogLevel) -> super::module::LogIdModuleFilterView {
    super::module::LogIdModuleFilterView {
        no_general_logging: false,
        origin_module: m,
        level: l,
        ids: Seq::empty(),
        addons: Seq::empty(),
    }
}

/// The filter `m = <level>` is read as the one module rule for `m` at that level, where `m`
/// holds no character of the filter syntax and no `=`, and neither begins nor ends with
/// whitespace: no general level, no global log-ids and no addons.
pub proof fn lemma_module_level_config(m: Seq<char>, l: LogLevel)
    requires
        no_filter_syntax(m),
        forall|j: int| 0 <= j < m.len() ==> m[j] != '=',
        m.len() > 0,
        !is_space(m[0]),
        !is_space(m.last()),
    ensures
        parse_filter_config(module_level_filter(m, l)) == (FilterConfigView {
            no_general_logging: true,
            general_level: LogLevel::Error,
            general_addons: Seq::empty(),
            global_ids: Seq::empty(),
            modules: seq![plain_module_rule(m, l)],
        }),
{
    let k = level_keyword(l);
    let s = module_level_filter(m, l);
    assert(k.len() >= 4 && k.len() <= 5);
    assert(s.len() == m.len() + 3 + k.len());
    assert(s[0] == m[0]);
    assert(s.last() == k.last());
    assert forall|j: int| 0 <= j < s.len() implies s[j] != ',' && s[j] != '[' && s[j] != '('
        && s[j] != ')' by {
        if j < m.len() {
            assert(s[j] == m[j]);
        } else if j >= m.len() + 3 {
            assert(s[j] == k[j - m.len() - 3]);
        }
    }
    lemma_trim_unchanged(s);
    assert(!lower_eq(s, seq!['o', 'f', 'f']));
    lemma_split_acc_no_sep(s, ',', Seq::empty());
    assert(Seq::<char>::empty() + s =~= s);
    let parts = split_char(s, ',');
    assert(parts == seq![s]);
    assert(parts.drop_last() =~= Seq::<Seq<char>>::empty());
    assert(config_fold(parts.drop_last()) == initial_config());
    assert(parts.last() == s);
    assert(config_fold(parts) == config_step(config_fold(parts.drop_last()), parts.last()));
    lemma_first_index_absent(s, '[');
    lemma_first_index_absent(s, '(');
    assert(spec_get_ids(s) == (Seq::<LogIdAddonFilterView>::empty(), s));
    assert(spec_get_addons(s) == (Seq::<super::addon::AddonFilter>::empty(), s));
    assert(parse_level(trim(s)) is None);
    // the rule's module path and level
    let left = m + seq![' '];
    let right = seq![' '] + k;
    assert(s =~= left + (seq!['='] + right));
    assert forall|j: int| 0 <= j < left.len() implies left[j] != '=' by {
        if j < m.len() {
            assert(left[j] == m[j]);
        }
    }
    lemma_split_acc_prefix(left, seq!['='] + right, '=', Seq::empty());
    assert(Seq::<char>::empty() + left =~= left);
    assert((seq!['='] + right)[0] == '=');
    assert((seq!['='] + right).drop_first() =~= right);
    assert forall|j: int| 0 <= j < right.len() implies right[j] != '=' by {
        if j > 0 {
            assert(right[j] == k[j - 1]);
        }
    }
    lemma_split_acc_no_sep(right, '=', Seq::empty());
    assert(Seq::<char>::empty() + right =~= right);
    let eq_parts = split_char(s, '=');
    assert(eq_parts =~= seq![left, right]);
    lemma_trim_unchanged(m);
    lemma_trim_unchanged(k);
    assert(!is_space(left[0]));
    assert(trim_start(left) == left);
    assert(left.drop_last() =~= m);
    assert(trim(left) == m);
    assert(right.drop_first() =~= k);
    assert(trim_start(right) == trim_start(k));
    assert(trim(right) == k);
    lemma_level_keyword_roundtrip(l);
    let rule = parse_module(s, Seq::empty(), Seq::empty());
    assert(rule == Some(plain_module_rule(m, l)));
    let c = parse_filter_config(s);
    assert(c == config_step(initial_config(), s));
    assert(c =~= (FilterConfigView {
        no_general_logging: true,
        general_level: LogLevel::Error,
        general_addons: Seq::empty(),
        global_ids: Seq::empty(),
        modules: seq![plain_module_rule(m, l)],
    }));
}

/// The filter `m = <level>` allows exactly the events set in a module whose path begins with `m`
/// at that level or a more severe one, and the events of the event handler; where `m` holds no
/// character of the filter syntax and no `=`, and neither begins nor ends with whitespace.
pub proof fn lemma_module_level_filter(m: Seq<char>, l: LogLevel, id: LogIdView, origin: Seq<char>)
    requires
        no_filter_syntax(m),
        forall|j: int| 0 <= j < m.len() ==> m[j] != '=',
        m.len() > 0,
        !is_space(m[0]),
        !is_space(m.last()),
    ensures
        config_allows_entry(parse_filter_config(module_level_filter(m, l)), id, origin) == (
        has_prefix(origin, handler_module()) || (has_prefix(origin, m) && level_le(l, id.level))),
{
    lemma_module_level_config(m, l);
    let c = parse_filter_config(module_level_filter(m, l));
    assert(!id_allowed(c.global_ids, id));
    assert(!id_allowed(c.modules[0].ids, id));
    if has_prefix(origin, m) && level_le(l, id.level) {
        assert(super::module::module_event_allowed(c.modules[0], id, origin));
    }
}

/// A module rule without an addon part allows no addon: the filter `m = <level>` allows no
/// addon of any event, whatever its level and origin, and shows neither ids nor origins.
pub proof fn lemma_module_rule_allows_no_addon(
    m: Seq<char>,
    l: LogLevel,
    id: LogIdView,
    origin: Seq<char>,
    a: AddonFilter,
)
    requires
        no_filter_syntax(m),
        forall|j: int| 0 <= j < m.len() ==> m[j] != '=',
        m.len() > 0,
        !is_space(m[0]),
        !is_space(m.last()),
    ensures
        !config_allows_addon(parse_filter_config(module_level_filter(m, l)), id, origin, a),
{
    lemma_module_level_config(m, l);
    let c = parse_filter_config(module_level_filter(m, l));
    assert(!super::module::addon_allowed(c.global_ids, id, a));
    assert(!super::module::addon_allowed(c.modules[0].ids, id, a));
    assert(!c.modules[0].addons.contains(a));
    assert(!super::module::module_addon_allowed(c.modules[0], id, origin, a));
}

/// Text without colons holds no `"::"`.
proof fn lemma_first_path_sep_absent(s: Seq<char>)
    requires
        forall|j: int| 0 <= j < s.len() ==> s[j] != ':',
    ensures
        crate::text::first_path_sep(s) == -1,
    decreases s.len(),
{
    if s.len() >= 2 {
        lemma_first_path_sep_absent(s.drop_first());
    }
}

/// The crate-qualified filter text `c = <level>`: a rule for the crate `c` at level `l`.
pub open spec fn crate_level_filter(c: Seq<char>, l: LogLevel) -> Seq<char> {
    c + seq![' ', '=', ' '] + level_keyword(l)
}

/// A crate rule covers only its own crate: the crate-qualified filter `c = <level>` allows
/// exactly the events set in crate `c` at that level or a more severe one, whatever crate
/// their log-id belongs to; where `c` holds no character of the filter syntax, no `:` and no
/// `=`, and neither begins nor ends with whitespace.
pub proof fn lemma_crate_rule_own_crate(
    c: Seq<char>,
    l: LogLevel,
    id_crate: Seq<char>,
    id: LogIdView,
    origin_crate: Seq<char>,
    origin: Seq<char>,
)
    requires
        no_filter_syntax(c),
        forall|j: int| 0 <= j < c.len() ==> c[j] != '=' && c[j] != ':',
        c.len() > 0,
        !is_space(c[0]),
        !is_space(c.last()),
    ensures
        crate_filter::filter_allows_event(
            crate_filter::parse_inner_filter(crate_level_filter(c, l)),
            id_crate,
            id,
            origin_crate,
            origin,
        ) == (origin_crate == c && level_le(l, id.level)),
{
    let k = level_keyword(l);
    let s = crate_level_filter(c, l);
    assert(k.len() >= 4 && k.len() <= 5);
    assert(s.len() == c.len() + 3 + k.len());
    assert(s[0] == c[0]);
    assert(s.last() == k.last());
    assert forall|j: int| 0 <= j < s.len() implies s[j] != ',' && s[j] != '[' && s[j] != '('
        && s[j] != ')' by {
        if j < c.len() {
            assert(s[j] == c[j]);
        } else if j >= c.len() + 3 {
            assert(s[j] == k[j - c.len() - 3]);
        }
    }
    lemma_trim_unchanged(s);
    assert(!lower_eq(s, seq!['o', 'f', 'f']));
    lemma_split_acc_no_sep(s, ',', Seq::empty());
    assert(Seq::<char>::empty() + s =~= s);
    let parts = split_char(s, ',');
    assert(parts == seq![s]);
    assert(parts.drop_last() =~= Seq::<Seq<char>>::empty());
    assert(crate_filter::config_fold(parts.drop_last()) == crate_filter::initial_config());
    assert(parts.last() == s);
    assert(crate_filter::config_fold(parts) == crate_filter::config_step(
        crate_filter::config_fold(parts.drop_last()),
        parts.last(),
    ));
    lemma_first_index_absent(s, '[');
    lemma_first_index_absent(s, '(');
    assert(crate_filter::spec_get_ids(s) == (Seq::<crate_filter::LogIdAddonFilterView>::empty(), s));
    assert(crate_filter::spec_get_addons(s) == (Seq::<crate_filter::AddonFilter>::empty(), s));
    assert(parse_level(trim(s)) is None);
    // the rule's crate and level
    let left = c + seq![' '];
    let right = seq![' '] + k;
    assert(s =~= left + (seq!['='] + right));
    assert forall|j: int| 0 <= j < left.len() implies left[j] != '=' by {
        if j < c.len() {
            assert(left[j] == c[j]);
        }
    }
    lemma_split_acc_prefix(left, seq!['='] + right, '=', Seq::empty());
    assert(Seq::<char>::empty() + left =~= left);
    assert((seq!['='] + right)[0] == '=');
    assert((seq!['='] + right).drop_first() =~= right);
    assert forall|j: int| 0 <= j < right.len() implies right[j] != '=' by {
        if j > 0 {
            assert(right[j] == k[j - 1]);
        }
    }
    lemma_split_acc_no_sep(right, '=', Seq::empty());
    assert(Seq::<char>::empty() + right =~= right);
    let eq_parts = split_char(s, '=');
    assert(eq_parts =~= seq![left, right]);
    lemma_trim_unchanged(c);
    lemma_trim_unchanged(k);
    assert(!is_space(left[0]));
    assert(trim_start(left) == left);
    assert(left.drop_last() =~= c);
    assert(trim(left) == c);
    assert(right.drop_first() =~= k);
    assert(trim_start(right) == trim_start(k));
    assert(trim(right) == k);
    lemma_level_keyword_roundtrip(l);
    lemma_first_path_sep_absent(c);
    assert(crate_filter::split_crate(c) == Some((c, Seq::<char>::empty())));
    let rule = crate_filter::LogIdModuleFilterView {
        no_general_logging: false,
        origin_crate_name: c,
        origin_module: Seq::empty(),
        level: l,
        ids: Seq::empty(),
        addons: Seq::empty(),
    };
    assert(crate_filter::parse_module(s, Seq::empty(), Seq::empty()) == Some(rule));
    let cfg = crate_filter::parse_inner_filter(s);
    assert(cfg == crate_filter::config_step(crate_filter::initial_config(), s));
    assert(cfg.modules =~= seq![rule]);
    assert(cfg.no_general_logging);
    assert(!crate_filter::id_allowed(cfg.global_ids, id_crate, id));
    assert(!crate_filter::id_allowed(rule.ids, id_crate, id));
    assert(has_prefix(origin, Seq::<char>::empty()) == (Seq::<char>::empty().len() <= origin.len()
        && origin.take(0) == Seq::<char>::empty()));
    assert(origin.take(0) =~= Seq::<char>::empty());
    if origin_crate == c && level_le(l, id.level) {
        assert(crate_filter::module_event_allowed(cfg.modules[0], id_crate, id, origin_crate, origin));
    }
}

/// A module rule allows an addon beyond its log-id rules only where the addon is listed in
/// its addon part, and only for events set in its module.
pub proof fn lemma_module_addon_needs_listing(
    m: super::module::LogIdModuleFilterView,
    id: LogIdView,
    origin: Seq<char>,
    a: AddonFilter,
)
    requires
        super::module::module_addon_allowed(m, id, origin, a),
        !super::module::addon_allowed(m.ids, id, a),
    ensures
        m.addons.contains(a),
        has_prefix(origin, m.origin_module),
        !m.no_general_logging && level_le(m.level, id.level),
{
}

/// A crate-qualified module rule allows events, and addons, only of events set in its own
/// crate and module.
pub proof fn lemma_crate_rule_needs_own_crate(
    m: crate_filter::LogIdModuleFilterView,
    id_crate: Seq<char>,
    id: LogIdView,
    origin_crate: Seq<char>,
    origin: Seq<char>,
    a: crate_filter::AddonFilter,
)
    ensures
        crate_filter::module_event_allowed(m, id_crate, id, origin_crate, origin) ==> origin_crate
            == m.origin_crate_name && has_prefix(origin, m.origin_module),
        crate_filter::module_addon_allowed(m, id_crate, id, origin_crate, origin, a)
            ==> origin_crate == m.origin_crate_name && has_prefix(origin, m.origin_module),
{
}

} // verus!
