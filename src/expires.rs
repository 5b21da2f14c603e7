//! The `expires` parameter: text now, a number when asked.
use crate::error::Error;
use vstd::prelude::*;

verus! {

/// All characters are ASCII decimal digits.
pub open spec fn is_digits(s: Seq<char>) -> bool {
    forall|i: int| 0 <= i < s.len() ==> '0' <= #[trigger] s[i] <= '9'
}

/// The value of a string of decimal digits.
pub open spec fn digits_value(s: Seq<char>) -> nat
    decreases s.len(),
{
    if s.len() == 0 {
        0
    } else {
        digits_value(s.drop_last()) * 10 + ((s.last() as u32) - ('0' as u32)) as nat
    }
}

/// An unsigned decimal number: an optional `+`, then one or more digits
/// whose value fits in `u32`.
pub open spec fn parsed_u32(s: Seq<char>) -> Option<u32> {
    let d = if s.len() > 0 && s[0] == '+' {
        s.skip(1)
    } else {
        s
    };
    if d.len() > 0 && is_digits(d) && digits_value(d) <= u32::MAX {
        Some(digits_value(d) as u32)
    } else {
        None
    }
}

/// Relies on `str::parse::<u32>`: an optional `+` then one or more ASCII
/// digits, with a value that fits in `u32`; anything else is an error.
#[verifier::external_body]
fn parse_u32(s: &str) -> (r: Option<u32>)
    ensures
        r == parsed_u32(s@),
{
    s.parse::<u32>().ok()
}

/// The text of an `expires` value, validated only when read as a number.
#[derive(Debug, PartialEq, Eq, Clone)]
pub struct Expires(String);

impl View for Expires {
    type V = Seq<char>;

    closed spec fn view(&self) -> Seq<char> {
        self.0@
    }
}

impl Expires {
    /// Wraps the text as it is; nothing is checked here.
    pub fn new(value: String) -> (r: Expires)
        ensures
            r@ == value@,
    {
        Expires(value)
    }

    /// The text as it was given.
    pub fn value(&self) -> (r: &str)
        ensures
            r@ == self@,
    {
        self.0.as_str()
    }

    /// The text read as a number of seconds.
    pub fn seconds(&self) -> (r: Result<u32, Error>)
        ensures
            r matches Ok(v) ==> parsed_u32(self@) == Some(v),
            r matches Err(e) ==> parsed_u32(self@) is None && e == Error::ParseInt,
    {
        match parse_u32(self.0.as_str()) {
            Some(v) => Ok(v),
            None => Err(Error::ParseInt),
        }
    }
}

} // verus!
