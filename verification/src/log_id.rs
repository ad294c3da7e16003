//! Contains the [`LogId`] struct and the [`LogLevel`]s it may represent.
use crate::text::{chars_eq, chars_of, string_of};
use vstd::prelude::*;
use vstd::std_specs::cmp::PartialEqSpecImpl;

verus! {

/// Log level a [`LogId`] may represent.
///
/// Levels are ordered by severity: `Trace < Debug < Info < Warn < Error`.
#[derive(Debug, Clone, Copy, PartialEq, Eq, Structural, PartialOrd, Ord, Hash)]
pub enum LogLevel {
    Trace,
    Debug,
    Info,
    Warn,
    Error,
}

/// The position of a level in the severity order, `Trace` being lowest.
pub open spec fn rank(level: LogLevel) -> int {
    match level {
        LogLevel::Trace => 0,
        LogLevel::Debug => 1,
        LogLevel::Info => 2,
        LogLevel::Warn => 3,
        LogLevel::Error => 4,
    }
}

/// `a` is at most as severe as `b` (the derived `a <= b`).
pub open spec fn level_le(a: LogLevel, b: LogLevel) -> bool {
    rank(a) <= rank(b)
}

/// The text a level is shown as.
pub open spec fn level_label(level: LogLevel) -> Seq<char> {
    match level {
        LogLevel::Error => seq!['E', 'R', 'R'],
        LogLevel::Warn => seq!['W', 'A', 'R', 'N'],
        LogLevel::Info => seq!['I', 'N', 'F', 'O'],
        LogLevel::Debug => seq!['D', 'E', 'B', 'U', 'G'],
        LogLevel::Trace => seq!['T', 'R', 'A', 'C', 'E'],
    }
}

impl Default for LogLevel {
    fn default() -> (r: Self)
        ensures
            r == LogLevel::Debug,
    {
        LogLevel::Debug
    }
}

impl LogLevel {
    /// The position of this level in the severity order, `Trace` being `0` and `Error` `4`.
    pub fn rank(&self) -> (r: u8)
        ensures
            r == rank(*self),
    {
        match self {
            LogLevel::Trace => 0,
            LogLevel::Debug => 1,
            LogLevel::Info => 2,
            LogLevel::Warn => 3,
            LogLevel::Error => 4,
        }
    }

    /// `self` is at most as severe as `other`.
    pub fn at_most(&self, other: LogLevel) -> (r: bool)
        ensures
            r == level_le(*self, other),
    {
        self.rank() <= other.rank()
    }

    /// The text this level is shown as: `ERR`, `WARN`, `INFO`, `DEBUG` or `TRACE`.
    pub fn to_string(&self) -> (r: String)
        ensures
            r@ == level_label(*self),
    {
        let v = match self {
            LogLevel::Error => vec!['E', 'R', 'R'],
            LogLevel::Warn => vec!['W', 'A', 'R', 'N'],
            LogLevel::Info => vec!['I', 'N', 'F', 'O'],
            LogLevel::Debug => vec!['D', 'E', 'B', 'U', 'G'],
            LogLevel::Trace => vec!['T', 'R', 'A', 'C', 'E'],
        };
        proof {
            assert(v@ =~= level_label(*self));
        }
        string_of(&v)
    }
}

/// Identifies a group of events by module path, identifier and level.
#[derive(Debug, Clone, Copy, Hash)]
pub struct LogId {
    pub(crate) module: &'static str,
    pub(crate) identifier: &'static str,
    pub(crate) log_level: LogLevel,
}

/// The mathematical model of a [`LogId`].
#[verifier::ext_equal]
pub struct LogIdView {
    pub module: Seq<char>,
    pub identifier: Seq<char>,
    pub level: LogLevel,
}

impl View for LogId {
    type V = LogIdView;

    closed spec fn view(&self) -> LogIdView {
        LogIdView { module: self.module@, identifier: self.identifier@, level: self.log_level }
    }
}

impl LogId {
    /// Creates a log-id from the module path it belongs to, its identifier and its level.
    pub fn new(path: &'static str, identifier: &'static str, log_level: LogLevel) -> (r: Self)
        ensures
            r@ == (LogIdView { module: path@, identifier: identifier@, level: log_level }),
    {
        LogId { module: path, identifier, log_level }
    }

    pub fn get_module_path(&self) -> (r: &'static str)
        ensures
            r@ == self@.module,
    {
        self.module
    }

    pub fn get_identifier(&self) -> (r: &'static str)
        ensures
            r@ == self@.identifier,
    {
        self.identifier
    }

    pub fn get_log_level(&self) -> (r: LogLevel)
        ensures
            r == self@.level,
    {
        self.log_level
    }

    /// The text this log-id is shown as: `id='<module path>::<identifier>'`.
    pub fn to_string(&self) -> (r: String)
        ensures
            r@ == seq!['i', 'd', '=', '\''] + self@.module + seq![':', ':'] + self@.identifier
                + seq!['\''],
    {
        let mut v: Vec<char> = vec!['i', 'd', '=', '\''];
        let m = chars_of(self.module);
        let i = chars_of(self.identifier);
        let ghost head = v@;
        append_chars(&mut v, &m);
        v.push(':');
        v.push(':');
        append_chars(&mut v, &i);
        v.push('\'');
        proof {
            assert(v@ =~= head + self@.module + seq![':', ':'] + self@.identifier + seq!['\'']);
        }
        string_of(&v)
    }
}

/// Appends the characters of `w` to `v`.
pub fn append_chars(v: &mut Vec<char>, w: &Vec<char>)
    ensures
        final(v)@ == old(v)@ + w@,
{
    let mut i: usize = 0;
    while i < w.len()
        invariant
            i <= w.len(),
            v@ == old(v)@ + w@.take(i as int),
        decreases w.len() - i,
    {
        v.push(w[i]);
        i = i + 1;
        assert(v@ =~= old(v)@ + w@.take(i as int));
    }
    assert(w@.take(w.len() as int) =~= w@);
}

impl Default for LogId {
    fn default() -> (r: Self)
        ensures
            r@.module.len() == 0,
            r@.identifier.len() == 0,
            r@.level == LogLevel::Debug,
    {
        let r = LogId { module: "", identifier: "", log_level: LogLevel::Debug };
        proof {
            reveal_strlit("");
        }
        r
    }
}

impl PartialEq for LogId {
    fn eq(&self, other: &Self) -> (r: bool) {
        let a = chars_of(self.module);
        let b = chars_of(other.module);
        let c = chars_of(self.identifier);
        let d = chars_of(other.identifier);
        chars_eq(&a, &b) && chars_eq(&c, &d) && self.log_level == other.log_level
    }
}

impl PartialEqSpecImpl for LogId {
    open spec fn obeys_eq_spec() -> bool {
        true
    }

    open spec fn eq_spec(&self, other: &LogId) -> bool {
        self@ == other@
    }
}

impl Eq for LogId {

}

} // verus!
