//! Character-level text handling shared by the filter parsers and the formatters.
//!
//! All parsing works on sequences of `char`s. The spec functions in this module
//! state what the standard string operations used by the filter syntax
//! (`trim`, `split`, `find`, `starts_with`, case-insensitive keyword matching) compute.
use vstd::prelude::*;

verus! {

/// The characters with the Unicode `White_Space` property (what `char::is_whitespace` accepts).
pub open spec fn is_space(c: char) -> bool {
    ||| ('\u{9}' <= c && c <= '\u{d}')
    ||| c == ' '
    ||| c == '\u{85}'
    ||| c == '\u{a0}'
    ||| c == '\u{1680}'
    ||| ('\u{2000}' <= c && c <= '\u{200a}')
    ||| c == '\u{2028}'
    ||| c == '\u{2029}'
    ||| c == '\u{202f}'
    ||| c == '\u{205f}'
    ||| c == '\u{3000}'
}

/// `s` without its leading whitespace.
pub open spec fn trim_start(s: Seq<char>) -> Seq<char>
    decreases s.len(),
{
    if s.len() > 0 && is_space(s[0]) {
        trim_start(s.drop_first())
    } else {
        s
    }
}

/// `s` without its trailing whitespace.
pub open spec fn trim_end(s: Seq<char>) -> Seq<char>
    decreases s.len(),
{
    if s.len() > 0 && is_space(s.last()) {
        trim_end(s.drop_last())
    } else {
        s
    }
}

/// `s` without leading and trailing whitespace (`str::trim`).
pub open spec fn trim(s: Seq<char>) -> Seq<char> {
    trim_end(trim_start(s))
}

/// The pieces of `s` between occurrences of `sep`, where `cur` is the piece read so far.
pub open spec fn split_acc(s: Seq<char>, sep: char, cur: Seq<char>) -> Seq<Seq<char>>
    decreases s.len(),
{
    if s.len() == 0 {
        seq![cur]
    } else if s[0] == sep {
        seq![cur] + split_acc(s.drop_first(), sep, Seq::empty())
    } else {
        split_acc(s.drop_first(), sep, cur.push(s[0]))
    }
}

/// The pieces of `s` between occurrences of `sep` (`str::split` with a `char` pattern).
pub open spec fn split_char(s: Seq<char>, sep: char) -> Seq<Seq<char>> {
    split_acc(s, sep, Seq::empty())
}

/// The pieces of `s` between the non-overlapping occurrences of `"::"`, found from the left,
/// where `cur` is the piece read so far.
pub open spec fn split_path_acc(s: Seq<char>, cur: Seq<char>) -> Seq<Seq<char>>
    decreases s.len(),
{
    if s.len() == 0 {
        seq![cur]
    } else if s.len() >= 2 && s[0] == ':' && s[1] == ':' {
        seq![cur] + split_path_acc(s.skip(2), Seq::empty())
    } else {
        split_path_acc(s.drop_first(), cur.push(s[0]))
    }
}

/// The pieces of `s` between occurrences of `"::"` (`str::split("::")`).
pub open spec fn split_path(s: Seq<char>) -> Seq<Seq<char>> {
    split_path_acc(s, Seq::empty())
}

/// The pieces joined again, with `"::"` between two neighbours.
pub open spec fn join_path(parts: Seq<Seq<char>>) -> Seq<char>
    decreases parts.len(),
{
    if parts.len() == 0 {
        Seq::empty()
    } else if parts.len() == 1 {
        parts[0]
    } else {
        join_path(parts.drop_last()) + seq![':', ':'] + parts.last()
    }
}

/// The index of the first occurrence of `c` in `s`, or `-1` where `c` does not occur.
pub open spec fn first_index(s: Seq<char>, c: char) -> int
    decreases s.len(),
{
    if s.len() == 0 {
        -1
    } else if s[0] == c {
        0
    } else if first_index(s.drop_first(), c) < 0 {
        -1
    } else {
        first_index(s.drop_first(), c) + 1
    }
}

/// The index of the first occurrence of `"::"` in `s`, or `-1` where it does not occur.
pub open spec fn first_path_sep(s: Seq<char>) -> int
    decreases s.len(),
{
    if s.len() < 2 {
        -1
    } else if s[0] == ':' && s[1] == ':' {
        0
    } else if first_path_sep(s.drop_first()) < 0 {
        -1
    } else {
        first_path_sep(s.drop_first()) + 1
    }
}

/// `s` begins with `prefix`.
pub open spec fn has_prefix(s: Seq<char>, prefix: Seq<char>) -> bool {
    prefix.len() <= s.len() && s.take(prefix.len() as int) == prefix
}

/// The ASCII upper-case form of `w`, or `w` itself where it is no ASCII lower-case letter.
pub open spec fn ascii_upper(w: char) -> char {
    match w {
        'a' => 'A',
        'b' => 'B',
        'c' => 'C',
        'd' => 'D',
        'e' => 'E',
        'f' => 'F',
        'g' => 'G',
        'h' => 'H',
        'i' => 'I',
        'j' => 'J',
        'k' => 'K',
        'l' => 'L',
        'm' => 'M',
        'n' => 'N',
        'o' => 'O',
        'p' => 'P',
        'q' => 'Q',
        'r' => 'R',
        's' => 'S',
        't' => 'T',
        'u' => 'U',
        'v' => 'V',
        'w' => 'W',
        'x' => 'X',
        'y' => 'Y',
        'z' => 'Z',
        _ => w,
    }
}

/// `c` lower-cased equals `w`, where `w` is an ASCII lower-case letter or another character
/// that has no upper-case form among ASCII characters.
pub open spec fn lower_matches(c: char, w: char) -> bool {
    c == w || c == ascii_upper(w)
}

/// `s.to_lowercase() == w` for a keyword `w` made of ASCII lower-case letters other than `k`.
///
/// Apart from the ASCII upper-case letters, the one character whose lower-case form is an
/// ASCII letter is the Kelvin sign (lower-cased to `k`); no keyword of the filter syntax
/// contains `k`, so matching character by character states the same as lower-casing first.
pub open spec fn lower_eq(s: Seq<char>, w: Seq<char>) -> bool {
    s.len() == w.len() && forall|i: int| 0 <= i < s.len() ==> lower_matches(#[trigger] s[i], w[i])
}

/// The deep view of a sequence of character vectors.
pub open spec fn vview(v: Seq<Vec<char>>) -> Seq<Seq<char>> {
    v.map_values(|p: Vec<char>| p@)
}

pub fn char_is_space(c: char) -> (r: bool)
    ensures
        r == is_space(c),
{
    ('\u{9}' <= c && c <= '\u{d}') || c == ' ' || c == '\u{85}' || c == '\u{a0}' || c
        == '\u{1680}' || ('\u{2000}' <= c && c <= '\u{200a}') || c == '\u{2028}' || c
        == '\u{2029}' || c == '\u{202f}' || c == '\u{205f}' || c == '\u{3000}'
}

/// The characters of `s`, in order.
pub fn chars_of(s: &str) -> (v: Vec<char>)
    ensures
        v@ == s@,
{
    let mut v: Vec<char> = Vec::new();
    for c in it: s.chars()
        invariant
            v@ == it.seq().take(it.index() as int),
    {
        v.push(c);
    }
    v
}

/// Appends `c` to `s`.
///
/// Calls `String::push`, which appends the given `char` to the end of the string; the
/// contract claims that the characters of the string are extended by exactly `c`.
#[verifier::external_body]
fn push_char(s: &mut String, c: char)
    ensures
        final(s)@ == old(s)@.push(c),
{
    s.push(c)
}

/// A `String` holding the characters of `v`.
pub fn string_of(v: &Vec<char>) -> (s: String)
    ensures
        s@ == v@,
{
    let mut s = String::new();
    let mut i: usize = 0;
    while i < v.len()
        invariant
            i <= v.len(),
            s@ == v@.take(i as int),
        decreases v.len() - i,
    {
        push_char(&mut s, v[i]);
        i = i + 1;
        assert(s@ =~= v@.take(i as int));
    }
    assert(v@.take(v.len() as int) =~= v@);
    s
}

/// The characters of `v` from `start` up to, not including, `end`.
pub fn copy_range(v: &Vec<char>, start: usize, end: usize) -> (r: Vec<char>)
    requires
        start <= end <= v.len(),
    ensures
        r@ == v@.subrange(start as int, end as int),
{
    let mut r: Vec<char> = Vec::new();
    let mut i = start;
    while i < end
        invariant
            start <= i <= end <= v.len(),
            r@ == v@.subrange(start as int, i as int),
        decreases end - i,
    {
        r.push(v[i]);
        i = i + 1;
        assert(r@ =~= v@.subrange(start as int, i as int));
    }
    r
}

/// `v` equals `w`.
pub fn chars_eq(v: &Vec<char>, w: &Vec<char>) -> (r: bool)
    ensures
        r == (v@ == w@),
{
    if v.len() != w.len() {
        return false;
    }
    let mut i: usize = 0;
    while i < v.len()
        invariant
            v.len() == w.len(),
            i <= v.len(),
            forall|j: int| 0 <= j < i ==> v@[j] == w@[j],
        decreases v.len() - i,
    {
        if v[i] != w[i] {
            return false;
        }
        i = i + 1;
    }
    assert(v@ =~= w@);
    true
}

/// The characters of `s` equal `w`.
pub fn str_eq_chars(s: &str, w: &Vec<char>) -> (r: bool)
    ensures
        r == (s@ == w@),
{
    let v = chars_of(s);
    chars_eq(&v, w)
}

/// `v` begins with `prefix`.
pub fn starts_with(v: &Vec<char>, prefix: &Vec<char>) -> (r: bool)
    ensures
        r == has_prefix(v@, prefix@),
{
    if prefix.len() > v.len() {
        return false;
    }
    let mut i: usize = 0;
    while i < prefix.len()
        invariant
            prefix.len() <= v.len(),
            i <= prefix.len(),
            forall|j: int| 0 <= j < i ==> v@[j] == prefix@[j],
        decreases prefix.len() - i,
    {
        if v[i] != prefix[i] {
            assert(v@.take(prefix.len() as int)[i as int] != prefix@[i as int]);
            return false;
        }
        i = i + 1;
    }
    assert(v@.take(prefix.len() as int) =~= prefix@);
    true
}

/// The ASCII upper-case form of `w` (see [`ascii_upper`]).
pub fn to_ascii_upper(w: char) -> (r: char)
    ensures
        r == ascii_upper(w),
{
    match w {
        'a' => 'A',
        'b' => 'B',
        'c' => 'C',
        'd' => 'D',
        'e' => 'E',
        'f' => 'F',
        'g' => 'G',
        'h' => 'H',
        'i' => 'I',
        'j' => 'J',
        'k' => 'K',
        'l' => 'L',
        'm' => 'M',
        'n' => 'N',
        'o' => 'O',
        'p' => 'P',
        'q' => 'Q',
        'r' => 'R',
        's' => 'S',
        't' => 'T',
        'u' => 'U',
        'v' => 'V',
        'w' => 'W',
        'x' => 'X',
        'y' => 'Y',
        'z' => 'Z',
        _ => w,
    }
}

/// `s` lower-cased equals the keyword `w` (see [`lower_eq`]).
pub fn lower_equals(s: &Vec<char>, w: &Vec<char>) -> (r: bool)
    ensures
        r == lower_eq(s@, w@),
{
    if s.len() != w.len() {
        return false;
    }
    let mut i: usize = 0;
    while i < s.len()
        invariant
            s.len() == w.len(),
            i <= s.len(),
            forall|j: int| 0 <= j < i ==> lower_matches(#[trigger] s@[j], w@[j]),
        decreases s.len() - i,
    {
        let c = s[i];
        let d = w[i];
        let ok = c == d || c == to_ascii_upper(d);
        if !ok {
            return false;
        }
        i = i + 1;
    }
    true
}

pub proof fn lemma_first_index_found(s: Seq<char>, c: char, i: int)
    requires
        0 <= i < s.len(),
        s[i] == c,
        forall|j: int| 0 <= j < i ==> s[j] != c,
    ensures
        first_index(s, c) == i,
    decreases s.len(),
{
    if i > 0 {
        lemma_first_index_found(s.drop_first(), c, i - 1);
    }
}

pub proof fn lemma_first_index_absent(s: Seq<char>, c: char)
    requires
        forall|j: int| 0 <= j < s.len() ==> s[j] != c,
    ensures
        first_index(s, c) == -1,
    decreases s.len(),
{
    if s.len() > 0 {
        lemma_first_index_absent(s.drop_first(), c);
    }
}

/// The index of the first `c` in `v` (`str::find` with a `char` pattern, counted in characters).
pub fn find_char(v: &Vec<char>, c: char) -> (r: Option<usize>)
    ensures
        match r {
            Some(i) => i < v.len() && first_index(v@, c) == i,
            None => first_index(v@, c) == -1,
        },
{
    let mut i: usize = 0;
    while i < v.len()
        invariant
            i <= v.len(),
            forall|j: int| 0 <= j < i ==> v@[j] != c,
        decreases v.len() - i,
    {
        if v[i] == c {
            proof {
                lemma_first_index_found(v@, c, i as int);
            }
            return Some(i);
        }
        i = i + 1;
    }
    proof {
        lemma_first_index_absent(v@, c);
    }
    None
}

proof fn lemma_first_path_sep_found(s: Seq<char>, i: int)
    requires
        0 <= i < s.len() - 1,
        s[i] == ':' && s[i + 1] == ':',
        forall|j: int| 0 <= j < i ==> !(#[trigger] s[j] == ':' && s[j + 1] == ':'),
    ensures
        first_path_sep(s) == i,
    decreases s.len(),
{
    if i > 0 {
        lemma_first_path_sep_found(s.drop_first(), i - 1);
    }
}

proof fn lemma_first_path_sep_absent(s: Seq<char>)
    requires
        forall|j: int| 0 <= j < s.len() - 1 ==> !(#[trigger] s[j] == ':' && s[j + 1] == ':'),
    ensures
        first_path_sep(s) == -1,
    decreases s.len(),
{
    if s.len() >= 2 {
        assert(!(s[0] == ':' && s[1] == ':'));
        lemma_first_path_sep_absent(s.drop_first());
    }
}

/// The index of the first `"::"` in `v` (`str::find("::")`, counted in characters).
pub fn find_path_sep(v: &Vec<char>) -> (r: Option<usize>)
    ensures
        match r {
            Some(i) => i + 1 < v.len() && first_path_sep(v@) == i,
            None => first_path_sep(v@) == -1,
        },
{
    let mut i: usize = 0;
    while i < v.len() && v.len() - i > 1
        invariant
            i <= v.len(),
            forall|j: int| 0 <= j < i && j + 1 < v.len() ==> !(#[trigger] v@[j] == ':' && v@[j + 1] == ':'),
        decreases v.len() - i,
    {
        if v[i] == ':' && v[i + 1] == ':' {
            proof {
                lemma_first_path_sep_found(v@, i as int);
            }
            return Some(i);
        }
        i = i + 1;
    }
    proof {
        lemma_first_path_sep_absent(v@);
    }
    None
}

proof fn lemma_trim_start_skip(s: Seq<char>, i: int)
    requires
        0 <= i < s.len(),
        is_space(s[i]),
    ensures
        trim_start(s.skip(i)) == trim_start(s.skip(i + 1)),
{
    assert(s.skip(i).drop_first() =~= s.skip(i + 1));
}

proof fn lemma_trim_end_sub(s: Seq<char>, i: int, j: int)
    requires
        0 <= i < j <= s.len(),
        is_space(s[j - 1]),
    ensures
        trim_end(s.subrange(i, j)) == trim_end(s.subrange(i, j - 1)),
{
    assert(s.subrange(i, j).drop_last() =~= s.subrange(i, j - 1));
}

/// The range of `v` that is left after trimming whitespace at both ends.
pub fn trim_range(v: &Vec<char>) -> (r: (usize, usize))
    ensures
        r.0 <= r.1 <= v.len(),
        v@.subrange(r.0 as int, r.1 as int) == trim(v@),
{
    let n = v.len();
    let mut i: usize = 0;
    assert(v@.skip(0) =~= v@);
    while i < n && char_is_space(v[i])
        invariant
            i <= n == v.len(),
            trim_start(v@) == trim_start(v@.skip(i as int)),
        decreases n - i,
    {
        proof {
            lemma_trim_start_skip(v@, i as int);
        }
        i = i + 1;
    }
    let ghost t = v@.skip(i as int);
    assert(trim_start(v@) == t);
    assert(t =~= v@.subrange(i as int, n as int));
    let mut j: usize = n;
    while j > i && char_is_space(v[j - 1])
        invariant
            i <= j <= n == v.len(),
            trim(v@) == trim_end(v@.subrange(i as int, j as int)),
        decreases j,
    {
        proof {
            lemma_trim_end_sub(v@, i as int, j as int);
        }
        j = j - 1;
    }
    if j > i {
        assert(v@.subrange(i as int, j as int).last() == v@[j - 1]);
    }
    (i, j)
}

/// `v` with whitespace at both ends removed.
pub fn trimmed(v: &Vec<char>) -> (r: Vec<char>)
    ensures
        r@ == trim(v@),
{
    let (a, b) = trim_range(v);
    copy_range(v, a, b)
}

/// `s` is blank: nothing is left after trimming.
pub fn is_blank(v: &Vec<char>) -> (r: bool)
    ensures
        r == (trim(v@).len() == 0),
{
    let (a, b) = trim_range(v);
    a == b
}

/// The pieces of `v` between occurrences of `sep`.
pub fn split_on(v: &Vec<char>, sep: char) -> (r: Vec<Vec<char>>)
    ensures
        vview(r@) == split_char(v@, sep),
{
    let mut pieces: Vec<Vec<char>> = Vec::new();
    let mut cur: Vec<char> = Vec::new();
    let mut i: usize = 0;
    assert(v@.skip(0) =~= v@);
    assert(vview(pieces@) =~= Seq::<Seq<char>>::empty());
    while i < v.len()
        invariant
            i <= v.len(),
            vview(pieces@) + split_acc(v@.skip(i as int), sep, cur@) == split_char(v@, sep),
        decreases v.len() - i,
    {
        let ghost rest = v@.skip(i as int);
        assert(rest[0] == v@[i as int]);
        assert(rest.drop_first() =~= v@.skip(i + 1));
        if v[i] == sep {
            let ghost old_pieces = vview(pieces@);
            let ghost old_cur = cur@;
            pieces.push(cur);
            cur = Vec::new();
            assert(vview(pieces@) =~= old_pieces.push(old_cur));
            assert(old_pieces + (seq![old_cur] + split_acc(v@.skip(i + 1), sep, cur@))
                =~= old_pieces.push(old_cur) + split_acc(v@.skip(i + 1), sep, cur@));
        } else {
            cur.push(v[i]);
        }
        i = i + 1;
    }
    let ghost old_pieces = vview(pieces@);
    let ghost old_cur = cur@;
    pieces.push(cur);
    assert(vview(pieces@) =~= old_pieces.push(old_cur));
    assert(v@.skip(i as int) =~= Seq::<char>::empty());
    assert(old_pieces + seq![old_cur] =~= old_pieces.push(old_cur));
    pieces
}

/// The pieces of `v` between occurrences of `"::"`.
pub fn split_on_path(v: &Vec<char>) -> (r: Vec<Vec<char>>)
    ensures
        vview(r@) == split_path(v@),
{
    let mut pieces: Vec<Vec<char>> = Vec::new();
    let mut cur: Vec<char> = Vec::new();
    let mut i: usize = 0;
    assert(v@.skip(0) =~= v@);
    assert(vview(pieces@) =~= Seq::<Seq<char>>::empty());
    while i < v.len()
        invariant
            i <= v.len(),
            vview(pieces@) + split_path_acc(v@.skip(i as int), cur@) == split_path(v@),
        decreases v.len() - i,
    {
        let ghost rest = v@.skip(i as int);
        assert(rest[0] == v@[i as int]);
        if i + 1 < v.len() && v[i] == ':' && v[i + 1] == ':' {
            assert(rest[1] == v@[i + 1]);
            assert(rest.skip(2) =~= v@.skip(i + 2));
            let ghost old_pieces = vview(pieces@);
            let ghost old_cur = cur@;
            pieces.push(cur);
            cur = Vec::new();
            assert(vview(pieces@) =~= old_pieces.push(old_cur));
            assert(old_pieces + (seq![old_cur] + split_path_acc(v@.skip(i + 2), cur@))
                =~= old_pieces.push(old_cur) + split_path_acc(v@.skip(i + 2), cur@));
            i = i + 2;
        } else {
            if i + 1 < v.len() {
                assert(rest[1] == v@[i + 1]);
            }
            assert(rest.drop_first() =~= v@.skip(i + 1));
            cur.push(v[i]);
            i = i + 1;
        }
    }
    let ghost old_pieces = vview(pieces@);
    let ghost old_cur = cur@;
    pieces.push(cur);
    assert(vview(pieces@) =~= old_pieces.push(old_cur));
    assert(v@.skip(i as int) =~= Seq::<char>::empty());
    assert(old_pieces + seq![old_cur] =~= old_pieces.push(old_cur));
    pieces
}

/// `v` with the characters from `start` to `end`, both included, taken out.
pub fn cut_range(v: &Vec<char>, start: usize, end: usize) -> (r: Vec<char>)
    requires
        start <= end < v.len(),
    ensures
        r@ == v@.take(start as int) + v@.skip(end + 1),
{
    let mut r = copy_range(v, 0, start);
    let mut i = end + 1;
    assert(v@.subrange(0, start as int) =~= v@.take(start as int));
    while i < v.len()
        invariant
            end < i <= v.len(),
            r@ == v@.take(start as int) + v@.subrange(end + 1, i as int),
        decreases v.len() - i,
    {
        r.push(v[i]);
        i = i + 1;
        assert(r@ =~= v@.take(start as int) + v@.subrange(end + 1, i as int));
    }
    assert(v@.subrange(end + 1, v.len() as int) =~= v@.skip(end + 1));
    r
}

/// Splitting text that holds no separator gives the piece read so far extended by the text.
pub proof fn lemma_split_acc_no_sep(s: Seq<char>, sep: char, cur: Seq<char>)
    requires
        forall|j: int| 0 <= j < s.len() ==> s[j] != sep,
    ensures
        split_acc(s, sep, cur) == seq![cur + s],
    decreases s.len(),
{
    if s.len() == 0 {
        assert(cur + s =~= cur);
    } else {
        lemma_split_acc_no_sep(s.drop_first(), sep, cur.push(s[0]));
        assert(cur.push(s[0]) + s.drop_first() =~= cur + s);
    }
}

/// Splitting text that holds no `:` at `"::"` gives the piece read so far extended by the text.
pub proof fn lemma_split_path_acc_no_colon(s: Seq<char>, cur: Seq<char>)
    requires
        forall|j: int| 0 <= j < s.len() ==> s[j] != ':',
    ensures
        split_path_acc(s, cur) == seq![cur + s],
    decreases s.len(),
{
    if s.len() == 0 {
        assert(cur + s =~= cur);
    } else {
        lemma_split_path_acc_no_colon(s.drop_first(), cur.push(s[0]));
        assert(cur.push(s[0]) + s.drop_first() =~= cur + s);
    }
}

/// Appending `"::"` and a piece without `:` to text that does not end in `:` appends that
/// piece to its pieces.
pub proof fn lemma_split_path_append(x: Seq<char>, i: Seq<char>, cur: Seq<char>)
    requires
        !(x.len() > 0 && x.last() == ':'),
        forall|j: int| 0 <= j < i.len() ==> i[j] != ':',
    ensures
        split_path_acc(x + seq![':', ':'] + i, cur) == split_path_acc(x, cur) + seq![i],
    decreases x.len(),
{
    let s = x + seq![':', ':'] + i;
    if x.len() == 0 {
        assert(s.skip(2) =~= i);
        lemma_split_path_acc_no_colon(i, Seq::empty());
        assert(Seq::<char>::empty() + i =~= i);
        assert(seq![cur] + seq![i] =~= seq![cur] + seq![i]);
    } else if x.len() >= 2 && x[0] == ':' && x[1] == ':' {
        assert(s[0] == ':' && s[1] == ':');
        assert(s.skip(2) =~= x.skip(2) + seq![':', ':'] + i);
        lemma_split_path_append(x.skip(2), i, Seq::empty());
        assert(seq![cur] + (split_path_acc(x.skip(2), Seq::empty()) + seq![i]) =~= (seq![cur]
            + split_path_acc(x.skip(2), Seq::empty())) + seq![i]);
    } else {
        assert(s[0] == x[0]);
        if x.len() == 1 {
            assert(x[0] == x.last());
        } else {
            assert(s[1] == x[1]);
        }
        assert(s.drop_first() =~= x.drop_first() + seq![':', ':'] + i);
        lemma_split_path_append(x.drop_first(), i, cur.push(x[0]));
    }
}

/// Joining puts `"::"` between the first piece and the join of the others.
pub proof fn lemma_join_path_prepend(c: Seq<char>, r: Seq<Seq<char>>)
    requires
        r.len() >= 1,
    ensures
        join_path(seq![c] + r) == c + seq![':', ':'] + join_path(r),
    decreases r.len(),
{
    let t = seq![c] + r;
    assert(t.len() >= 2);
    assert(join_path(t) == join_path(t.drop_last()) + seq![':', ':'] + t.last());
    if r.len() == 1 {
        assert(t.drop_last() =~= seq![c]);
        assert(join_path(seq![c]) == c);
        assert(t.last() == r[0]);
        assert(join_path(r) == r[0]);
    } else {
        assert(t.drop_last() =~= seq![c] + r.drop_last());
        lemma_join_path_prepend(c, r.drop_last());
        assert(t.last() == r.last());
        assert(join_path(r) == join_path(r.drop_last()) + seq![':', ':'] + r.last());
        assert(c + seq![':', ':'] + join_path(r.drop_last()) + seq![':', ':'] + r.last() =~= c
            + seq![':', ':'] + (join_path(r.drop_last()) + seq![':', ':'] + r.last()));
    }
}

/// Splitting at `"::"` gives at least one piece.
pub proof fn lemma_split_path_acc_nonempty(s: Seq<char>, cur: Seq<char>)
    ensures
        split_path_acc(s, cur).len() >= 1,
    decreases s.len(),
{
    if s.len() == 0 {
    } else if s.len() >= 2 && s[0] == ':' && s[1] == ':' {
        lemma_split_path_acc_nonempty(s.skip(2), Seq::empty());
    } else {
        lemma_split_path_acc_nonempty(s.drop_first(), cur.push(s[0]));
    }
}

/// Joining the pieces of a split at `"::"` gives the text back.
pub proof fn lemma_join_split_path_acc(s: Seq<char>, cur: Seq<char>)
    ensures
        join_path(split_path_acc(s, cur)) == cur + s,
    decreases s.len(),
{
    if s.len() == 0 {
        assert(cur + s =~= cur);
    } else if s.len() >= 2 && s[0] == ':' && s[1] == ':' {
        lemma_split_path_acc_nonempty(s.skip(2), Seq::empty());
        lemma_join_split_path_acc(s.skip(2), Seq::empty());
        lemma_join_path_prepend(cur, split_path_acc(s.skip(2), Seq::empty()));
        assert(cur + seq![':', ':'] + (Seq::<char>::empty() + s.skip(2)) =~= cur + s);
    } else {
        lemma_join_split_path_acc(s.drop_first(), cur.push(s[0]));
        assert(cur.push(s[0]) + s.drop_first() =~= cur + s);
    }
}

/// Text that neither begins nor ends with whitespace is left as it is by trimming.
pub proof fn lemma_trim_unchanged(s: Seq<char>)
    requires
        s.len() > 0,
        !is_space(s[0]),
        !is_space(s.last()),
    ensures
        trim(s) == s,
{
}

} // verus!
