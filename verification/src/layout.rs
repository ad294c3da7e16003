//! Line-oriented text: splitting into lines, indentation, replacing the first occurrence of a
//! pattern, and the text of an entry id.
use crate::text::{copy_range, split_acc, split_char, split_on, vview};
use vstd::prelude::*;

verus! {

/// `x` without one carriage return at its end.
pub open spec fn strip_cr(x: Seq<char>) -> Seq<char> {
    if x.len() > 0 && x.last() == '\r' {
        x.drop_last()
    } else {
        x
    }
}

/// The lines of `s` (`str::lines`): the pieces between line feeds, each without a carriage
/// return that stood before its line feed; a last empty piece is no line.
pub open spec fn lines_of(s: Seq<char>) -> Seq<Seq<char>> {
    let p = split_char(s, '\n');
    let body = p.drop_last().map_values(|x: Seq<char>| strip_cr(x));
    if p.last().len() == 0 {
        body
    } else {
        body.push(p.last())
    }
}

/// Splitting gives at least one piece.
pub proof fn lemma_split_acc_nonempty(s: Seq<char>, sep: char, cur: Seq<char>)
    ensures
        split_acc(s, sep, cur).len() >= 1,
    decreases s.len(),
{
    if s.len() == 0 {
    } else if s[0] == sep {
        lemma_split_acc_nonempty(s.drop_first(), sep, Seq::empty());
    } else {
        lemma_split_acc_nonempty(s.drop_first(), sep, cur.push(s[0]));
    }
}

/// `x` without one carriage return at its end.
pub fn strip_cr_exec(x: &Vec<char>) -> (r: Vec<char>)
    ensures
        r@ == strip_cr(x@),
{
    if x.len() > 0 && x[x.len() - 1] == '\r' {
        let r = copy_range(x, 0, x.len() - 1);
        assert(r@ =~= x@.drop_last());
        r
    } else {
        let r = copy_range(x, 0, x.len());
        assert(r@ =~= x@);
        r
    }
}

/// The lines of `v` (see [`lines_of`]).
pub fn split_lines(v: &Vec<char>) -> (r: Vec<Vec<char>>)
    ensures
        vview(r@) == lines_of(v@),
{
    let pieces = split_on(v, '\n');
    proof {
        lemma_split_acc_nonempty(v@, '\n', Seq::empty());
    }
    let ghost p = split_char(v@, '\n');
    let n = pieces.len();
    assert(vview(pieces@).len() == n);
    let mut r: Vec<Vec<char>> = Vec::new();
    let mut i: usize = 0;
    while i + 1 < n
        invariant
            n == pieces.len(),
            n >= 1,
            i + 1 <= n,
            vview(pieces@) == p,
            vview(r@) == p.take(i as int).map_values(|x: Seq<char>| strip_cr(x)),
        decreases n - i,
    {
        assert(pieces@[i as int]@ == p[i as int]);
        let line = strip_cr_exec(&pieces[i]);
        let ghost before = vview(r@);
        r.push(line);
        assert(vview(r@) =~= before.push(strip_cr(p[i as int])));
        assert(p.take(i + 1) =~= p.take(i as int).push(p[i as int]));
        assert(p.take(i + 1).map_values(|x: Seq<char>| strip_cr(x)) =~= p.take(i as int).map_values(
            |x: Seq<char>| strip_cr(x),
        ).push(strip_cr(p[i as int])));
        i = i + 1;
    }
    assert(p.take(i as int) =~= p.drop_last());
    assert(pieces@[n - 1]@ == p.last());
    if pieces[n - 1].len() > 0 {
        let last = copy_range(&pieces[n - 1], 0, pieces[n - 1].len());
        assert(last@ =~= p.last());
        let ghost before = vview(r@);
        r.push(last);
        assert(vview(r@) =~= before.push(p.last()));
    }
    r
}

/// `n` spaces.
pub open spec fn spaces(n: nat) -> Seq<char> {
    Seq::new(n, |i: int| ' ')
}

/// `n` spaces (`" ".repeat(n)`).
pub fn spaces_exec(n: usize) -> (r: Vec<char>)
    ensures
        r@ == spaces(n as nat),
{
    let mut r: Vec<char> = Vec::new();
    let mut i: usize = 0;
    while i < n
        invariant
            i <= n,
            r@ == spaces(i as nat),
        decreases n - i,
    {
        r.push(' ');
        i = i + 1;
        assert(r@ =~= spaces(i as nat));
    }
    r
}

/// `pat` occurs in `s` at index `i`.
pub open spec fn occurs_at(s: Seq<char>, pat: Seq<char>, i: int) -> bool {
    0 <= i && i + pat.len() <= s.len() && s.subrange(i, i + pat.len()) == pat
}

/// The first index from `i` on at which `pat` occurs in `s`, or `-1` if there is none.
pub open spec fn first_occurrence_from(s: Seq<char>, pat: Seq<char>, i: int) -> int
    decreases s.len() + 1 - i,
{
    if i < 0 {
        -1
    } else if i + pat.len() > s.len() {
        -1
    } else if occurs_at(s, pat, i) {
        i
    } else {
        first_occurrence_from(s, pat, i + 1)
    }
}

/// `s` with the first occurrence of `pat` replaced by `with` (`str::replacen` with count `1`).
pub open spec fn replace_first(s: Seq<char>, pat: Seq<char>, with: Seq<char>) -> Seq<char> {
    let i = first_occurrence_from(s, pat, 0);
    if i < 0 {
        s
    } else {
        s.take(i) + with + s.skip(i + pat.len())
    }
}

/// `pat` occurs in `v` at index `i`.
fn occurs_at_exec(v: &Vec<char>, pat: &Vec<char>, i: usize) -> (r: bool)
    requires
        i + pat.len() <= v.len(),
    ensures
        r == occurs_at(v@, pat@, i as int),
{
    let mut k: usize = 0;
    while k < pat.len()
        invariant
            k <= pat.len(),
            i + pat.len() <= v.len(),
            forall|j: int| 0 <= j < k ==> v@[i + j] == pat@[j],
        decreases pat.len() - k,
    {
        if v[i + k] != pat[k] {
            assert(v@.subrange(i as int, i + pat.len())[k as int] != pat@[k as int]);
            return false;
        }
        k = k + 1;
    }
    assert(v@.subrange(i as int, i + pat.len()) =~= pat@);
    true
}

/// `v` with the first occurrence of `pat` replaced by `with`.
pub fn replace_first_exec(v: &Vec<char>, pat: &Vec<char>, with: &Vec<char>) -> (r: Vec<char>)
    ensures
        r@ == replace_first(v@, pat@, with@),
{
    if pat.len() > v.len() {
        return copy_range(v, 0, v.len());
    }
    let last = v.len() - pat.len();
    let mut i: usize = 0;
    loop
        invariant
            last == v.len() - pat.len(),
            i <= last,
            first_occurrence_from(v@, pat@, 0) == first_occurrence_from(v@, pat@, i as int),
        decreases last - i,
    {
        if occurs_at_exec(v, pat, i) {
            assert(first_occurrence_from(v@, pat@, i as int) == i as int);
            let mut r = copy_range(v, 0, i);
            let ghost head = r@;
            let mut k: usize = 0;
            while k < with.len()
                invariant
                    k <= with.len(),
                    r@ == head + with@.take(k as int),
                decreases with.len() - k,
            {
                r.push(with[k]);
                k = k + 1;
                assert(r@ =~= head + with@.take(k as int));
            }
            let tail = copy_range(v, i + pat.len(), v.len());
            let ghost mid = r@;
            let mut k: usize = 0;
            while k < tail.len()
                invariant
                    k <= tail.len(),
                    r@ == mid + tail@.take(k as int),
                decreases tail.len() - k,
            {
                r.push(tail[k]);
                k = k + 1;
                assert(r@ =~= mid + tail@.take(k as int));
            }
            assert(with@.take(with.len() as int) =~= with@);
            assert(tail@.take(tail.len() as int) =~= tail@);
            assert(head =~= v@.take(i as int));
            assert(tail@ =~= v@.skip(i + pat.len()));
            return r;
        }
        if i == last {
            assert(first_occurrence_from(v@, pat@, i + 1) == -1);
            let r = copy_range(v, 0, v.len());
            assert(r@ =~= v@);
            return r;
        }
        i = i + 1;
    }
}

/// The hexadecimal digit of `d`, in lower case.
pub open spec fn hex_char(d: nat) -> char {
    seq!['0', '1', '2', '3', '4', '5', '6', '7', '8', '9', 'a', 'b', 'c', 'd', 'e', 'f'][d as int]
}

/// The last `k` hexadecimal digits of `x`, most significant first.
pub open spec fn hex_digits(x: nat, k: nat) -> Seq<char>
    decreases k,
{
    if k == 0 {
        Seq::empty()
    } else {
        hex_digits(x / 16, (k - 1) as nat).push(hex_char(x % 16))
    }
}

/// The text of an entry id `x`: its 32 hexadecimal digits in lower case, most significant
/// first, in groups of 8, 4, 4, 4 and 12 joined by hyphens.
pub open spec fn entry_id_text(x: u128) -> Seq<char> {
    let d = hex_digits(x as nat, 32);
    d.subrange(0, 8) + seq!['-'] + d.subrange(8, 12) + seq!['-'] + d.subrange(12, 16) + seq!['-']
        + d.subrange(16, 20) + seq!['-'] + d.subrange(20, 32)
}

/// The hexadecimal digit of `d`.
fn hex_char_exec(d: u128) -> (r: char)
    requires
        d < 16,
    ensures
        r == hex_char(d as nat),
{
    let digits = vec!['0', '1', '2', '3', '4', '5', '6', '7', '8', '9', 'a', 'b', 'c', 'd', 'e', 'f'];
    assert(digits@ =~= seq!['0', '1', '2', '3', '4', '5', '6', '7', '8', '9', 'a', 'b', 'c', 'd', 'e', 'f']);
    let i: usize = d as usize;
    digits[i]
}

/// The last `k` hexadecimal digits of `x`, most significant first.
fn hex_digits_exec(x: u128, k: usize) -> (r: Vec<char>)
    ensures
        r@ == hex_digits(x as nat, k as nat),
        r@.len() == k,
    decreases k,
{
    if k == 0 {
        Vec::new()
    } else {
        let mut r = hex_digits_exec(x / 16, k - 1);
        r.push(hex_char_exec(x % 16));
        r
    }
}

/// The text of the entry id `x` (see [`entry_id_text`]).
pub fn entry_id_string(x: u128) -> (r: Vec<char>)
    ensures
        r@ == entry_id_text(x),
{
    let d = hex_digits_exec(x, 32);
    let mut r = copy_range(&d, 0, 8);
    r.push('-');
    let mut k: usize = 8;
    while k < 32
        invariant
            8 <= k <= 32,
            d@ == hex_digits(x as nat, 32),
            d@.len() == 32,
            k == 8 || k == 12 || k == 16 || k == 20 || k == 32,
            k == 8 ==> r@ == d@.subrange(0, 8) + seq!['-'],
            k == 12 ==> r@ == d@.subrange(0, 8) + seq!['-'] + d@.subrange(8, 12) + seq!['-'],
            k == 16 ==> r@ == d@.subrange(0, 8) + seq!['-'] + d@.subrange(8, 12) + seq!['-']
                + d@.subrange(12, 16) + seq!['-'],
            k == 20 ==> r@ == d@.subrange(0, 8) + seq!['-'] + d@.subrange(8, 12) + seq!['-']
                + d@.subrange(12, 16) + seq!['-'] + d@.subrange(16, 20) + seq!['-'],
            k == 32 ==> r@ == entry_id_text(x),
        decreases 32 - k,
    {
        let end: usize = if k == 20 { 32 } else { k + 4 };
        let ghost before = r@;
        let mut j = k;
        while j < end
            invariant
                k <= j <= end <= 32,
                d@.len() == 32,
                r@ == before + d@.subrange(k as int, j as int),
            decreases end - j,
        {
            r.push(d[j]);
            j = j + 1;
            assert(r@ =~= before + d@.subrange(k as int, j as int));
        }
        if end < 32 {
            r.push('-');
        }
        k = end;
        proof {
            if k == 12 {
                assert(r@ =~= d@.subrange(0, 8) + seq!['-'] + d@.subrange(8, 12) + seq!['-']);
            } else if k == 16 {
                assert(r@ =~= d@.subrange(0, 8) + seq!['-'] + d@.subrange(8, 12) + seq!['-']
                    + d@.subrange(12, 16) + seq!['-']);
            } else if k == 20 {
                assert(r@ =~= d@.subrange(0, 8) + seq!['-'] + d@.subrange(8, 12) + seq!['-']
                    + d@.subrange(12, 16) + seq!['-'] + d@.subrange(16, 20) + seq!['-']);
            } else {
                assert(r@ =~= entry_id_text(x));
            }
        }
    }
    r
}

} // verus!
