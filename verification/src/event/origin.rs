//! The code position an event was set at.
use crate::log_id::append_chars;
use crate::text::{chars_of, string_of};
use vstd::prelude::*;

verus! {

/// Structure representing the origin of a log-id.
#[derive(Debug, Default, Clone)]
pub struct Origin {
    /// Filename where the log-id was set
    pub filename: String,
    /// Linenumber where the log-id was set
    pub line_nr: u32,
    /// Module path where the log-id was set
    pub module: String,
}

/// The mathematical model of an [`Origin`].
#[verifier::ext_equal]
pub struct OriginView {
    pub filename: Seq<char>,
    pub line_nr: u32,
    pub module: Seq<char>,
}

impl View for Origin {
    type V = OriginView;

    open spec fn view(&self) -> OriginView {
        OriginView { filename: self.filename@, line_nr: self.line_nr, module: self.module@ }
    }
}

/// The text of the code position of a captured event:
/// `module="<module path>", file="<filename>", line=<line number>`.
pub open spec fn location_text(o: OriginView) -> Seq<char> {
    seq!['m', 'o', 'd', 'u', 'l', 'e', '=', '"'] + o.module + seq!['"', ',', ' ', 'f', 'i', 'l', 'e', '=', '"']
        + o.filename + seq!['"', ',', ' ', 'l', 'i', 'n', 'e', '='] + decimal(o.line_nr as nat)
}

/// The character of a decimal digit.
pub open spec fn digit_char(d: nat) -> char {
    if d == 0 {
        '0'
    } else if d == 1 {
        '1'
    } else if d == 2 {
        '2'
    } else if d == 3 {
        '3'
    } else if d == 4 {
        '4'
    } else if d == 5 {
        '5'
    } else if d == 6 {
        '6'
    } else if d == 7 {
        '7'
    } else if d == 8 {
        '8'
    } else {
        '9'
    }
}

/// The decimal notation of `n`, without leading zeros.
pub open spec fn decimal(n: nat) -> Seq<char>
    decreases n,
{
    if n < 10 {
        seq![digit_char(n)]
    } else {
        decimal(n / 10).push(digit_char(n % 10))
    }
}

/// The value of the decimal digit `c`; `-1` for a character that is no digit.
pub open spec fn digit_value(c: char) -> int {
    match c {
        '0' => 0,
        '1' => 1,
        '2' => 2,
        '3' => 3,
        '4' => 4,
        '5' => 5,
        '6' => 6,
        '7' => 7,
        '8' => 8,
        '9' => 9,
        _ => -1,
    }
}

/// The number the decimal digits `s` stand for, most significant first.
pub open spec fn read_decimal(s: Seq<char>) -> int
    decreases s.len(),
{
    if s.len() == 0 {
        0
    } else {
        read_decimal(s.drop_last()) * 10 + digit_value(s.last())
    }
}

/// The digit of `d` has the value `d`.
proof fn lemma_digit_value(d: nat)
    requires
        d < 10,
    ensures
        digit_value(digit_char(d)) == d,
        d > 0 ==> digit_char(d) != '0',
{
    if d == 0 {
    } else if d == 1 {
    } else if d == 2 {
    } else if d == 3 {
    } else if d == 4 {
    } else if d == 5 {
    } else if d == 6 {
    } else if d == 7 {
    } else if d == 8 {
    } else {
    }
}

/// The decimal notation of `n` is the notation of `n`: it is made of digits, it reads back
/// as `n`, and it has no leading zero.
pub proof fn lemma_decimal_reads_back(n: nat)
    ensures
        decimal(n).len() >= 1,
        forall|i: int| 0 <= i < decimal(n).len() ==> 0 <= #[trigger] digit_value(decimal(n)[i]) <= 9,
        read_decimal(decimal(n)) == n,
        n > 0 ==> decimal(n)[0] != '0',
    decreases n,
{
    if n < 10 {
        lemma_digit_value(n);
        let d = decimal(n);
        assert(d.drop_last() =~= Seq::<char>::empty());
        assert(read_decimal(d.drop_last()) == 0);
        assert(d.last() == digit_char(n));
        assert(read_decimal(d) == read_decimal(d.drop_last()) * 10 + digit_value(d.last()));
    } else {
        lemma_decimal_reads_back(n / 10);
        lemma_digit_value(n % 10);
        let d = decimal(n);
        let prev = decimal(n / 10);
        assert(d.drop_last() =~= prev);
        assert(d[0] == prev[0]);
        assert forall|i: int| 0 <= i < d.len() implies 0 <= #[trigger] digit_value(d[i]) <= 9 by {
            if i < prev.len() {
                assert(d[i] == prev[i]);
            }
        }
        assert(d.last() == digit_char(n % 10));
        assert(read_decimal(d) == read_decimal(d.drop_last()) * 10 + digit_value(d.last()));
        assert(read_decimal(d) == (n / 10) as int * 10 + (n % 10) as int);
        assert((n / 10) as int * 10 + (n % 10) as int == n) by (nonlinear_arith);
    }
}

/// The text an origin is shown as:
/// `file="<filename>", line=<line number>, module="<module path>"`.
pub open spec fn origin_text(o: OriginView) -> Seq<char> {
    seq!['f', 'i', 'l', 'e', '=', '"'] + o.filename + seq!['"', ',', ' ', 'l', 'i', 'n', 'e', '=']
        + decimal(o.line_nr as nat) + seq![',', ' ', 'm', 'o', 'd', 'u', 'l', 'e', '=', '"']
        + o.module + seq!['"']
}

fn digit(d: u32) -> (c: char)
    requires
        d < 10,
    ensures
        c == digit_char(d as nat),
{
    if d == 0 {
        '0'
    } else if d == 1 {
        '1'
    } else if d == 2 {
        '2'
    } else if d == 3 {
        '3'
    } else if d == 4 {
        '4'
    } else if d == 5 {
        '5'
    } else if d == 6 {
        '6'
    } else if d == 7 {
        '7'
    } else if d == 8 {
        '8'
    } else {
        '9'
    }
}

/// Appends the decimal notation of `n` to `v`.
pub fn push_decimal(v: &mut Vec<char>, n: u32)
    ensures
        final(v)@ == old(v)@ + decimal(n as nat),
    decreases n,
{
    if n >= 10 {
        push_decimal(v, n / 10);
    }
    let ghost before = v@;
    v.push(digit(n % 10));
    proof {
        if n < 10 {
            assert(v@ =~= old(v)@ + decimal(n as nat));
        } else {
            assert(before == old(v)@ + decimal((n / 10) as nat));
            assert(v@ =~= old(v)@ + decimal(n as nat));
        }
    }
}

impl Origin {
    /// Create a new [`Origin`].
    pub fn new(filename: &str, line_nr: u32, module: &str) -> (r: Self)
        ensures
            r@ == (OriginView { filename: filename@, line_nr, module: module@ }),
    {
        Origin { filename: filename.to_owned(), line_nr, module: module.to_owned() }
    }

    /// An origin with empty filename and module path at line `0`.
    pub fn default_origin() -> (r: Self)
        ensures
            r@ == (OriginView { filename: Seq::empty(), line_nr: 0, module: Seq::empty() }),
    {
        Origin { filename: String::new(), line_nr: 0, module: String::new() }
    }

    /// The text this origin is shown as (see [`origin_text`]).
    pub fn to_string(&self) -> (r: String)
        ensures
            r@ == origin_text(self@),
    {
        let mut v: Vec<char> = vec!['f', 'i', 'l', 'e', '=', '"'];
        append_chars(&mut v, &chars_of(self.filename.as_str()));
        let sep1: Vec<char> = vec!['"', ',', ' ', 'l', 'i', 'n', 'e', '='];
        append_chars(&mut v, &sep1);
        push_decimal(&mut v, self.line_nr);
        let sep2: Vec<char> = vec![',', ' ', 'm', 'o', 'd', 'u', 'l', 'e', '=', '"'];
        append_chars(&mut v, &sep2);
        append_chars(&mut v, &chars_of(self.module.as_str()));
        v.push('"');
        proof {
            assert(v@ =~= origin_text(self@));
        }
        string_of(&v)
    }

    /// The text of the code position of a captured event (see [`location_text`]).
    pub fn location(&self) -> (r: Vec<char>)
        ensures
            r@ == location_text(self@),
    {
        let mut v: Vec<char> = vec!['m', 'o', 'd', 'u', 'l', 'e', '=', '"'];
        append_chars(&mut v, &chars_of(self.module.as_str()));
        let sep1: Vec<char> = vec!['"', ',', ' ', 'f', 'i', 'l', 'e', '=', '"'];
        append_chars(&mut v, &sep1);
        append_chars(&mut v, &chars_of(self.filename.as_str()));
        let sep2: Vec<char> = vec!['"', ',', ' ', 'l', 'i', 'n', 'e', '='];
        append_chars(&mut v, &sep2);
        push_decimal(&mut v, self.line_nr);
        proof {
            assert(v@ =~= location_text(self@));
        }
        v
    }
}

} // verus!