//! The log-ids that the log-id derives give the items of a type, and the way back from a
//! log-id to the variant of an enum.
//!
//! A derive for a level gives each variant of an enum a log-id of that level in the module
//! the enum is defined in, whose identifier is the path of the variant: the enum's name, `::`
//! and the variant's name, followed by `(_)` for a tuple variant and `{..}` for a struct
//! variant. A struct or a union gets its name as identifier. The way back looks up the
//! identifier of a log-id among those of the enum's variants; a log-id of another module, or
//! one that names no variant, gives the enum's default variant.
use crate::log_id::{LogId, LogIdView, LogLevel};
use crate::text::{chars_of, string_of, str_eq_chars};
use vstd::prelude::*;

verus! {

/// The shape of the fields of an enum variant.
#[derive(Debug, Clone, Copy, PartialEq, Eq, Structural)]
pub enum VariantFields {
    /// A variant without fields.
    Unit,
    /// A variant with unnamed fields.
    Unnamed,
    /// A variant with named fields.
    Named,
}

/// `c` is not a space.
pub open spec fn not_space(c: char) -> bool {
    c != ' '
}

/// `s` without its spaces.
pub open spec fn without_spaces(s: Seq<char>) -> Seq<char> {
    s.filter(|c: char| not_space(c))
}

/// What stands behind the name of a variant whose fields have the shape `fields`.
pub open spec fn fields_suffix(fields: VariantFields) -> Seq<char> {
    match fields {
        VariantFields::Unit => Seq::empty(),
        VariantFields::Unnamed => seq!['(', '_', ')'],
        VariantFields::Named => seq!['{', '.', '.', '}'],
    }
}

/// The identifier of the variant `variant` of the enum `enum_name`, whose fields have the
/// shape `fields`: the path of the variant, without spaces.
pub open spec fn variant_identifier_text(enum_name: Seq<char>, variant: Seq<char>, fields: VariantFields) -> Seq<char> {
    without_spaces(enum_name + seq![':', ':'] + variant + fields_suffix(fields))
}

/// `v` without its spaces.
fn remove_spaces(v: &Vec<char>) -> (r: Vec<char>)
    ensures
        r@ == without_spaces(v@),
{
    let mut r: Vec<char> = Vec::new();
    let mut i: usize = 0;
    while i < v.len()
        invariant
            i <= v.len(),
            r@ == without_spaces(v@.take(i as int)),
        decreases v.len() - i,
    {
        proof {
            reveal(Seq::filter);
            assert(v@.take(i + 1).drop_last() =~= v@.take(i as int));
        }
        if v[i] != ' ' {
            r.push(v[i]);
        }
        i = i + 1;
    }
    assert(v@.take(v.len() as int) =~= v@);
    r
}

/// The identifier the log-id derives give the variant `variant` of the enum `enum_name`,
/// whose fields have the shape `fields`.
pub fn variant_identifier(enum_name: &str, variant: &str, fields: VariantFields) -> (r: String)
    ensures
        r@ == variant_identifier_text(enum_name@, variant@, fields),
{
    let mut v = chars_of(enum_name);
    v.push(':');
    v.push(':');
    let ghost head = v@;
    let w = chars_of(variant);
    let mut i: usize = 0;
    while i < w.len()
        invariant
            i <= w.len(),
            v@ == head + w@.take(i as int),
        decreases w.len() - i,
    {
        v.push(w[i]);
        i = i + 1;
        assert(v@ =~= head + w@.take(i as int));
    }
    match fields {
        VariantFields::Unit => {},
        VariantFields::Unnamed => {
            v.push('(');
            v.push('_');
            v.push(')');
        },
        VariantFields::Named => {
            v.push('{');
            v.push('.');
            v.push('.');
            v.push('}');
        },
    }
    assert(v@ =~= enum_name@ + seq![':', ':'] + variant@ + fields_suffix(fields));
    string_of(&remove_spaces(&v))
}

/// The log-id the derive for `level` gives the item at `index` of a type defined in module
/// `module`, whose items have the identifiers `identifiers`.
pub fn derived_log_id(module: &'static str, identifiers: &Vec<&'static str>, index: usize, level: LogLevel) -> (r: LogId)
    requires
        index < identifiers.len(),
    ensures
        r@ == (LogIdView { module: module@, identifier: identifiers@[index as int]@, level }),
{
    LogId::new(module, identifiers[index], level)
}

/// The index of the first of `identifiers` that equals `identifier`, if there is one.
pub open spec fn first_match(identifiers: Seq<Seq<char>>, identifier: Seq<char>) -> Option<int>
    decreases identifiers.len(),
{
    if identifiers.len() == 0 {
        None
    } else if identifiers.last() == identifier && first_match(identifiers.drop_last(), identifier) is None {
        Some(identifiers.len() - 1)
    } else {
        first_match(identifiers.drop_last(), identifier)
    }
}

/// The index of the variant the log-id `id` stands for, of an enum defined in module `module`
/// whose variants have the identifiers `identifiers`; none for a log-id of another module or
/// one that names no variant.
pub open spec fn variant_index_of(id: LogIdView, module: Seq<char>, identifiers: Seq<Seq<char>>) -> Option<int> {
    if id.module != module {
        None
    } else {
        first_match(identifiers, id.identifier)
    }
}

/// The views of the identifiers `ids`.
pub open spec fn ids_view(ids: Seq<&'static str>) -> Seq<Seq<char>> {
    ids.map_values(|s: &'static str| s@)
}

/// The index of the variant the log-id `id` stands for (see [`variant_index_of`]); the
/// derived conversion gives the default variant where there is none.
pub fn variant_index(id: &LogId, module: &str, identifiers: &Vec<&'static str>) -> (r: Option<usize>)
    ensures
        match r {
            Some(i) => variant_index_of(id@, module@, ids_view(identifiers@)) == Some(i as int),
            None => variant_index_of(id@, module@, ids_view(identifiers@)) is None,
        },
{
    let m = chars_of(id.get_module_path());
    if !str_eq_chars(module, &m) {
        return None;
    }
    let ident = chars_of(id.get_identifier());
    let ghost ids = ids_view(identifiers@);
    let mut i: usize = 0;
    while i < identifiers.len()
        invariant
            i <= identifiers.len(),
            ids == ids_view(identifiers@),
            ident@ == id@.identifier,
            module@ == id@.module,
            first_match(ids.take(i as int), id@.identifier) is None,
        decreases identifiers.len() - i,
    {
        proof {
            assert(ids.take(i + 1).drop_last() =~= ids.take(i as int));
        }
        if str_eq_chars(identifiers[i], &ident) {
            proof {
                assert(ids[i as int] == identifiers@[i as int]@);
                assert(ids.take(i + 1).last() == ids[i as int]);
                assert(first_match(ids.take(i + 1), id@.identifier) == Some(i as int));
                lemma_first_match_prefix(ids, i as int + 1, id@.identifier);
                assert(first_match(ids, id@.identifier) == Some(i as int));
                assert(variant_index_of(id@, module@, ids) == Some(i as int));
            }
            return Some(i);
        }
        i = i + 1;
    }
    assert(ids.take(identifiers.len() as int) =~= ids);
    None
}

/// A match found in a prefix is the first match of the whole sequence.
proof fn lemma_first_match_prefix(ids: Seq<Seq<char>>, n: int, identifier: Seq<char>)
    requires
        0 < n <= ids.len(),
        first_match(ids.take(n), identifier) is Some,
    ensures
        first_match(ids, identifier) == first_match(ids.take(n), identifier),
    decreases ids.len() - n,
{
    if n < ids.len() {
        assert(ids.take(n + 1).drop_last() =~= ids.take(n));
        lemma_first_match_prefix(ids, n + 1, identifier);
    } else {
        assert(ids.take(n) =~= ids);
    }
}

/// `ids` holds no identifier twice.
pub open spec fn all_distinct(ids: Seq<Seq<char>>) -> bool {
    forall|a: int, b: int| 0 <= a < ids.len() && 0 <= b < ids.len() && a != b ==> ids[a] != ids[b]
}

/// The first match of an identifier that occurs once is where it occurs.
proof fn lemma_first_match_distinct(ids: Seq<Seq<char>>, i: int)
    requires
        all_distinct(ids),
        0 <= i < ids.len(),
    ensures
        first_match(ids, ids[i]) == Some(i),
    decreases ids.len(),
{
    let prefix = ids.drop_last();
    if i == ids.len() - 1 {
        if first_match(prefix, ids[i]) is Some {
            lemma_first_match_found(prefix, ids[i]);
            let j = first_match(prefix, ids[i]).unwrap();
            assert(ids[j] == ids[i]);
        }
    } else {
        assert(all_distinct(prefix));
        assert(prefix[i] == ids[i]);
        lemma_first_match_distinct(prefix, i);
    }
}

/// A first match points at an equal identifier.
proof fn lemma_first_match_found(ids: Seq<Seq<char>>, identifier: Seq<char>)
    requires
        first_match(ids, identifier) is Some,
    ensures
        0 <= first_match(ids, identifier).unwrap() < ids.len(),
        ids[first_match(ids, identifier).unwrap()] == identifier,
    decreases ids.len(),
{
    if ids.len() > 0 && !(ids.last() == identifier && first_match(ids.drop_last(), identifier) is None) {
        lemma_first_match_found(ids.drop_last(), identifier);
    }
}

/// Converting the log-id that the derive gives a variant back to the enum gives that variant,
/// where the enum's identifiers differ from each other.
pub proof fn lemma_variant_roundtrip(module: Seq<char>, identifiers: Seq<Seq<char>>, index: int, level: LogLevel)
    requires
        all_distinct(identifiers),
        0 <= index < identifiers.len(),
    ensures
        variant_index_of(
            LogIdView { module, identifier: identifiers[index], level },
            module,
            identifiers,
        ) == Some(index),
{
    lemma_first_match_distinct(identifiers, index);
}

/// A log-id of another module than the enum's converts to the enum's default variant.
pub proof fn lemma_other_module_default(id: LogIdView, module: Seq<char>, identifiers: Seq<Seq<char>>)
    requires
        id.module != module,
    ensures
        variant_index_of(id, module, identifiers) is None,
{
}

/// Text without spaces stays as it is.
proof fn lemma_without_spaces_unchanged(s: Seq<char>)
    requires
        forall|i: int| 0 <= i < s.len() ==> s[i] != ' ',
    ensures
        without_spaces(s) == s,
    decreases s.len(),
{
    reveal(Seq::filter);
    if s.len() > 0 {
        lemma_without_spaces_unchanged(s.drop_last());
        assert(s.drop_last().push(s.last()) =~= s);
    }
}

/// `s` holds neither a colon nor a space.
pub open spec fn plain_name(s: Seq<char>) -> bool {
    forall|i: int| 0 <= i < s.len() ==> s[i] != ':' && s[i] != ' '
}

/// The identifier of a variant with plain names is its path as it is.
proof fn lemma_identifier_is_path(enum_name: Seq<char>, variant: Seq<char>, fields: VariantFields)
    requires
        plain_name(enum_name),
        plain_name(variant),
    ensures
        variant_identifier_text(enum_name, variant, fields) == enum_name + seq![':', ':'] + (variant
            + fields_suffix(fields)),
{
    let x = enum_name + seq![':', ':'];
    let y = x + variant;
    let s = y + fields_suffix(fields);
    assert(s =~= enum_name + seq![':', ':'] + (variant + fields_suffix(fields)));
    assert forall|i: int| 0 <= i < s.len() implies s[i] != ' ' by {
        if i < enum_name.len() {
            assert(s[i] == enum_name[i]);
        } else if i < x.len() {
            assert(s[i] == ':');
        } else if i < y.len() {
            assert(s[i] == variant[i - x.len()]);
        } else {
            assert(s[i] == fields_suffix(fields)[i - y.len()]);
        }
    }
    lemma_without_spaces_unchanged(s);
}

/// Variants of enums with different names get different identifiers, where the names of the
/// enums hold neither colons nor spaces and those of the variants no spaces, as Rust's
/// identifiers do.
pub proof fn lemma_enums_differ(
    enum_a: Seq<char>,
    variant_a: Seq<char>,
    fields_a: VariantFields,
    enum_b: Seq<char>,
    variant_b: Seq<char>,
    fields_b: VariantFields,
)
    requires
        enum_a != enum_b,
        plain_name(enum_a),
        plain_name(enum_b),
        plain_name(variant_a),
        plain_name(variant_b),
    ensures
        variant_identifier_text(enum_a, variant_a, fields_a) != variant_identifier_text(
            enum_b,
            variant_b,
            fields_b,
        ),
{
    if variant_identifier_text(enum_a, variant_a, fields_a) == variant_identifier_text(
        enum_b,
        variant_b,
        fields_b,
    ) {
        lemma_identifier_is_path(enum_a, variant_a, fields_a);
        lemma_identifier_is_path(enum_b, variant_b, fields_b);
        lemma_colon_splits(enum_a, variant_a + fields_suffix(fields_a), enum_b, variant_b + fields_suffix(fields_b));
    }
}

/// `s` could be a Rust identifier as far as the derives are concerned: it holds none of `:`,
/// space, `(`, `)`, `{`, `}` and `.`.
pub open spec fn ident_name(s: Seq<char>) -> bool {
    forall|i: int|
        0 <= i < s.len() ==> s[i] != ':' && s[i] != ' ' && s[i] != '(' && s[i] != ')' && s[i]
            != '{' && s[i] != '}' && s[i] != '.'
}

/// Two different variants, of one enum or of two, get different identifiers, and so
/// different log-ids, where the names of the enums and the variants are identifiers.
pub proof fn lemma_variant_ids_differ(
    enum_a: Seq<char>,
    variant_a: Seq<char>,
    fields_a: VariantFields,
    enum_b: Seq<char>,
    variant_b: Seq<char>,
    fields_b: VariantFields,
)
    requires
        enum_a != enum_b || variant_a != variant_b,
        ident_name(enum_a),
        ident_name(enum_b),
        ident_name(variant_a),
        ident_name(variant_b),
    ensures
        variant_identifier_text(enum_a, variant_a, fields_a) != variant_identifier_text(
            enum_b,
            variant_b,
            fields_b,
        ),
{
    if variant_identifier_text(enum_a, variant_a, fields_a) == variant_identifier_text(
        enum_b,
        variant_b,
        fields_b,
    ) {
        lemma_ident_is_plain(enum_a);
        lemma_ident_is_plain(enum_b);
        lemma_ident_is_plain(variant_a);
        lemma_ident_is_plain(variant_b);
        lemma_identifier_is_path(enum_a, variant_a, fields_a);
        lemma_identifier_is_path(enum_b, variant_b, fields_b);
        let ra = variant_a + fields_suffix(fields_a);
        let rb = variant_b + fields_suffix(fields_b);
        lemma_colon_splits(enum_a, ra, enum_b, rb);
        lemma_same_prefix(enum_a, ra, rb);
        lemma_suffix_splits(variant_a, fields_a, variant_b, fields_b);
    }
}

/// An identifier name is a plain name.
proof fn lemma_ident_is_plain(s: Seq<char>)
    requires
        ident_name(s),
    ensures
        plain_name(s),
{
}

/// What follows one and the same prefix is equal where the whole texts are.
proof fn lemma_same_prefix(e: Seq<char>, ra: Seq<char>, rb: Seq<char>)
    requires
        e + seq![':', ':'] + ra == e + seq![':', ':'] + rb,
    ensures
        ra == rb,
{
    let pre = e + seq![':', ':'];
    assert((pre + ra).skip(pre.len() as int) =~= ra);
    assert((pre + rb).skip(pre.len() as int) =~= rb);
}

/// Identifiers are told apart by what stands before a field suffix.
proof fn lemma_suffix_splits(va: Seq<char>, fa: VariantFields, vb: Seq<char>, fb: VariantFields)
    requires
        ident_name(va),
        ident_name(vb),
        va + fields_suffix(fa) == vb + fields_suffix(fb),
    ensures
        va == vb,
{
    let s = va + fields_suffix(fa);
    let t = vb + fields_suffix(fb);
    let la = va.len() as int;
    let lb = vb.len() as int;
    if la < lb {
        assert(t[la] == vb[la]);
        if fields_suffix(fa).len() == 0 {
            assert(s.len() == la);
        } else {
            assert(s[la] == fields_suffix(fa)[0]);
        }
    } else if lb < la {
        assert(s[lb] == va[lb]);
        if fields_suffix(fb).len() == 0 {
            assert(t.len() == lb);
        } else {
            assert(t[lb] == fields_suffix(fb)[0]);
        }
    } else {
        assert(s.take(la) =~= va);
        assert(t.take(lb) =~= vb);
    }
}

/// Names without colons are told apart by what stands before the first colon.
proof fn lemma_colon_splits(a: Seq<char>, ra: Seq<char>, b: Seq<char>, rb: Seq<char>)
    requires
        plain_name(a),
        plain_name(b),
        a + seq![':', ':'] + ra == b + seq![':', ':'] + rb,
    ensures
        a == b,
{
    let s = a + seq![':', ':'] + ra;
    let t = b + seq![':', ':'] + rb;
    let la = a.len() as int;
    let lb = b.len() as int;
    if la < lb {
        assert(s[la] == ':');
        assert(t[la] == b[la]);
    } else if lb < la {
        assert(t[lb] == ':');
        assert(s[lb] == a[lb]);
    } else {
        assert(s.take(la) =~= a);
        assert(t.take(lb) =~= b);
    }
}

} // verus!
