//! Promotion of borrowed byte ranges into owned text.
use crate::error::{Error, Field};
use crate::scan::opt_slice_view;
use vstd::prelude::*;
use vstd::utf8::{decode_utf8, valid_utf8};

verus! {

/// Relies on std::str::from_utf8: it accepts exactly the well-formed UTF-8
/// sequences and reads them as the characters they encode.
#[verifier::external_body]
fn utf8_str(b: &[u8]) -> (r: Option<&str>)
    ensures
        r is Some <==> valid_utf8(b@),
        r matches Some(s) ==> s@ == decode_utf8(b@),
{
    std::str::from_utf8(b).ok()
}

/// The owned text of `b`, or a decoding error that names `field`.
pub fn decode_field(b: &[u8], field: Field) -> (r: Result<String, Error>)
    ensures
        r is Ok <==> valid_utf8(b@),
        r matches Ok(s) ==> s@ == decode_utf8(b@),
        r matches Err(e) ==> e == Error::Utf8(field),
{
    match utf8_str(b) {
        Some(s) => Ok(s.to_owned()),
        None => Err(Error::Utf8(field)),
    }
}

/// The owned text of an optional range; absent stays absent.
pub fn decode_opt_field(b: Option<&[u8]>, field: Field) -> (r: Result<Option<String>, Error>)
    ensures
        r is Ok <==> (b matches Some(x) ==> valid_utf8(x@)),
        r matches Ok(o) ==> opt_text(o) == opt_decoded(b),
        r matches Err(e) ==> e == Error::Utf8(field),
{
    match b {
        None => Ok(None),
        Some(x) => match decode_field(x, field) {
            Ok(s) => Ok(Some(s)),
            Err(e) => Err(e),
        },
    }
}

/// A field with an optional second part, as bytes.
pub type Parts = (Seq<u8>, Option<Seq<u8>>);

/// A field with an optional second part, as characters.
pub type TextParts = (Seq<char>, Option<Seq<char>>);

/// Both parts are valid UTF-8.
pub open spec fn valid_parts(p: Parts) -> bool {
    valid_utf8(p.0) && (p.1 matches Some(x) ==> valid_utf8(x))
}

/// Both parts decoded; an absent second part stays absent.
pub open spec fn decode_parts(p: Parts) -> TextParts {
    (
        decode_utf8(p.0),
        match p.1 {
            Some(x) => Some(decode_utf8(x)),
            None => None,
        },
    )
}

/// Decodes a field and its optional second part.
pub fn decode_both(a: &[u8], b: Option<&[u8]>, fa: Field, fb: Field) -> (r: Result<
    (String, Option<String>),
    Error,
>)
    ensures
        r is Ok <==> valid_parts((a@, opt_slice_view(b))),
        r matches Ok(v) ==> (v.0@, opt_text(v.1)) == decode_parts((a@, opt_slice_view(b))),
        r matches Err(e) ==> (if valid_utf8(a@) {
            e == Error::Utf8(fb)
        } else {
            e == Error::Utf8(fa)
        }),
{
    let x = match decode_field(a, fa) {
        Ok(x) => x,
        Err(e) => return Err(e),
    };
    let y = match decode_opt_field(b, fb) {
        Ok(y) => y,
        Err(e) => return Err(e),
    };
    Ok((x, y))
}

/// The characters of an optional owned text.
pub open spec fn opt_text(o: Option<String>) -> Option<Seq<char>> {
    match o {
        Some(s) => Some(s@),
        None => None,
    }
}

/// The decoded characters of an optional byte range.
pub open spec fn opt_decoded(b: Option<&[u8]>) -> Option<Seq<char>> {
    match b {
        Some(x) => Some(decode_utf8(x@)),
        None => None,
    }
}

} // verus!
