//! The main message of a log event.
use crate::text::{chars_eq, chars_of};
use vstd::prelude::*;
use vstd::std_specs::cmp::PartialEqSpecImpl;
use vstd::std_specs::convert::FromSpecImpl;

verus! {

/// The main message set for a log event.
#[derive(Debug, Clone)]
pub struct LogMsg {
    msg: String,
}

impl View for LogMsg {
    type V = Seq<char>;

    closed spec fn view(&self) -> Seq<char> {
        self.msg@
    }
}

/// A log event without main message.
pub const NO_MSG: Option<LogMsg> = None;

impl LogMsg {
    /// A message holding the characters of `msg`.
    pub fn new(msg: &str) -> (r: Self)
        ensures
            r@ == msg@,
    {
        LogMsg { msg: msg.to_owned() }
    }

    /// The message text.
    pub fn as_str(&self) -> (r: &str)
        ensures
            r@ == self@,
    {
        self.msg.as_str()
    }

    /// The message text, as the message is shown.
    pub fn to_string(&self) -> (r: String)
        ensures
            r@ == self@,
    {
        self.msg.as_str().to_owned()
    }
}

impl From<String> for LogMsg {
    fn from(value: String) -> (r: Self) {
        LogMsg { msg: value }
    }
}

impl FromSpecImpl<String> for LogMsg {
    open spec fn obeys_from_spec() -> bool {
        true
    }

    closed spec fn from_spec(v: String) -> LogMsg {
        LogMsg { msg: v }
    }
}

/// A message made from a `String` holds its characters.
pub broadcast proof fn lemma_from_string_view(v: String)
    ensures
        #[trigger] <LogMsg as vstd::std_specs::convert::FromSpec<String>>::from_spec(v)@ == v@,
{
}

impl From<LogMsg> for String {
    fn from(value: LogMsg) -> (r: Self) {
        value.msg
    }
}

impl FromSpecImpl<LogMsg> for String {
    open spec fn obeys_from_spec() -> bool {
        true
    }

    closed spec fn from_spec(v: LogMsg) -> String {
        v.msg
    }
}

/// The `String` made from a message holds its characters.
pub broadcast proof fn lemma_string_from_view(v: LogMsg)
    ensures
        #[trigger] <String as vstd::std_specs::convert::FromSpec<LogMsg>>::from_spec(v)@ == v@,
{
}

impl PartialEq<String> for LogMsg {
    fn eq(&self, other: &String) -> (r: bool) {
        let a = chars_of(self.msg.as_str());
        let b = chars_of(other.as_str());
        chars_eq(&a, &b)
    }
}

impl PartialEqSpecImpl<String> for LogMsg {
    open spec fn obeys_eq_spec() -> bool {
        true
    }

    open spec fn eq_spec(&self, other: &String) -> bool {
        self@ == other@
    }
}

impl PartialEq<str> for LogMsg {
    fn eq(&self, other: &str) -> (r: bool) {
        let a = chars_of(self.msg.as_str());
        let b = chars_of(other);
        chars_eq(&a, &b)
    }
}

impl PartialEqSpecImpl<str> for LogMsg {
    open spec fn obeys_eq_spec() -> bool {
        true
    }

    open spec fn eq_spec(&self, other: &str) -> bool {
        self@ == other@
    }
}

} // verus!
