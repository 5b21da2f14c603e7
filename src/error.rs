//! The terminal errors that conversions and the top-level parse report.
use vstd::prelude::*;

verus! {

/// A field of a production, named in decoding errors.
#[derive(Debug, Clone, Copy, PartialEq, Eq, Structural)]
pub enum Field {
    Username,
    Password,
    Scheme,
    Host,
    ParamName,
    ParamValue,
    Method,
    Reason,
    HeaderName,
    HeaderValue,
}

/// A production, named when no alternative of it matched.
#[derive(Debug, Clone, Copy, PartialEq, Eq, Structural)]
pub enum Production {
    Message,
    UriList,
}

/// A surfaced, terminal error: the input as a whole cannot be used.
#[derive(Debug, Clone, Copy, PartialEq, Eq, Structural)]
pub enum Error {
    /// The bytes of the field are not valid UTF-8.
    Utf8(Field),
    /// No alternative of the production matched.
    Tokenize(Production),
    /// The protocol version is not one this library knows.
    UnknownVersion,
    /// The status code is not three decimal digits.
    StatusCode,
    /// A text field does not hold an unsigned integer in range.
    ParseInt,
}

} // verus!
