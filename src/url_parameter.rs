use vstd::prelude::*;
use vstd::string::StrSliceExecFns;

verus! {

/// A value that can be read from the name of a URL parameter.
pub trait URLParser: Sized {
    /// The value that the parameter name `value` stands for, if any.
    spec fn parse_spec(value: Seq<char>) -> Option<Self>;

    fn parse(value: &str) -> (r: Option<Self>)
        ensures
            r == Self::parse_spec(value@),
    ;
}

/// A parameter of a push subscription request.
#[derive(Debug, Clone, Copy, PartialEq, Eq, Structural)]
pub enum URLParameter {
    /// Restrict the delivered changes to the listed data types.
    Types,
    /// Close the connection after the first notification.
    CloseAfter,
    /// Seconds between keepalive pings when nothing changed.
    Ping,
}

/// `true` exactly when `value` and `name` hold the same characters.
fn same_chars(value: &str, name: &str) -> (r: bool)
    ensures
        r == (value@ == name@),
{
    let n = value.unicode_len();
    if n != name.unicode_len() {
        return false;
    }
    let mut i: usize = 0;
    while i < n
        invariant
            n == value@.len(),
            n == name@.len(),
            i <= n,
            forall|j: int| 0 <= j < i ==> value@[j] == name@[j],
        decreases n - i,
    {
        if value.get_char(i) != name.get_char(i) {
            return false;
        }
        i = i + 1;
    }
    assert(value@ =~= name@);
    true
}

impl URLParser for URLParameter {
    open spec fn parse_spec(value: Seq<char>) -> Option<URLParameter> {
        if value == "types"@ {
            Some(URLParameter::Types)
        } else if value == "closeafter"@ {
            Some(URLParameter::CloseAfter)
        } else if value == "ping"@ {
            Some(URLParameter::Ping)
        } else {
            None
        }
    }

    fn parse(value: &str) -> (r: Option<URLParameter>) {
        if same_chars(value, "types") {
            Some(URLParameter::Types)
        } else if same_chars(value, "closeafter") {
            Some(URLParameter::CloseAfter)
        } else if same_chars(value, "ping") {
            Some(URLParameter::Ping)
        } else {
            None
        }
    }
}

} // verus!
