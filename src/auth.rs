//! The authority component of a URI: `user[:password]@`.
use crate::error::{Error, Field};
use crate::scan::{
    opt_slice_view, position_of_either, split_first, split_once, till, AT, COLON, DOT,
};
use crate::text::{decode_field, decode_opt_field, opt_decoded, opt_text};
use vstd::prelude::*;
use vstd::slice::slice_subrange;
use vstd::utf8::{decode_utf8, valid_utf8};

verus! {

/// A grammar-choice failure: the production did not match here, and the
/// caller may try another alternative. It is never surfaced on its own.
#[derive(Debug, Clone, Copy, PartialEq, Eq, Structural)]
pub struct Mismatch {}

/// Where the userinfo scan stops: the first `.` or `@`.
pub open spec fn userinfo_end(s: Seq<u8>) -> int {
    till(s, DOT, AT)
}

/// `s` opens with a userinfo span that `@` ends before any `.`.
pub open spec fn has_authority(s: Seq<u8>) -> bool {
    userinfo_end(s) < s.len() && s[userinfo_end(s)] == AT
}

/// The authority in its owned, decoded form.
#[derive(Debug, PartialEq, Eq, Clone)]
pub struct Auth {
    pub username: String,
    pub password: Option<String>,
}

/// The authority as ranges of the input buffer.
#[derive(Debug, PartialEq, Eq, Clone, Copy)]
pub struct Tokenizer<'a> {
    pub username: &'a [u8],
    pub password: Option<&'a [u8]>,
}

impl<'a> Tokenizer<'a> {
    /// The bytes of the username and of the password, if any.
    pub open spec fn spec_parts(&self) -> (Seq<u8>, Option<Seq<u8>>) {
        (
            self.username@,
            opt_slice_view(self.password),
        )
    }

    /// Splits `user[:password]@` off the front of `part`; the remainder is
    /// what follows the `@`. The scan for `@` stops at the first `.`, so a
    /// bare host name fails at once rather than being consumed.
    pub fn tokenize(part: &'a [u8]) -> (r: Result<(&'a [u8], Tokenizer<'a>), Mismatch>)
        ensures
            r is Ok <==> has_authority(part@),
            r matches Ok((rem, t)) ==> {
                &&& rem@ == part@.skip(userinfo_end(part@) + 1)
                &&& t.spec_parts() == split_first(part@.take(userinfo_end(part@)), COLON)
            },
    {
        let p = position_of_either(part, DOT, AT);
        if p >= part.len() || part[p] != AT {
            return Err(Mismatch {});
        }
        let info = slice_subrange(part, 0, p);
        let rem = slice_subrange(part, p + 1, part.len());
        let (username, password) = split_once(info, COLON);
        let t = Tokenizer { username, password };
        assert(info@ =~= part@.take(p as int));
        assert(rem@ =~= part@.skip(p + 1));
        Ok((rem, t))
    }
}

impl From<(String, Option<String>)> for Auth {
    fn from(value: (String, Option<String>)) -> (r: Auth)
        ensures
            r == (Auth { username: value.0, password: value.1 }),
    {
        Auth { username: value.0, password: value.1 }
    }
}

impl vstd::std_specs::convert::FromSpecImpl<(String, Option<String>)> for Auth {
    open spec fn obeys_from_spec() -> bool {
        true
    }

    open spec fn from_spec(value: (String, Option<String>)) -> Auth {
        Auth { username: value.0, password: value.1 }
    }
}

impl<'a> From<(&'a [u8], Option<&'a [u8]>)> for Tokenizer<'a> {
    fn from(value: (&'a [u8], Option<&'a [u8]>)) -> (r: Tokenizer<'a>)
        ensures
            r == (Tokenizer { username: value.0, password: value.1 }),
    {
        Tokenizer { username: value.0, password: value.1 }
    }
}

impl<'a> vstd::std_specs::convert::FromSpecImpl<(&'a [u8], Option<&'a [u8]>)> for Tokenizer<'a> {
    open spec fn obeys_from_spec() -> bool {
        true
    }

    open spec fn from_spec(value: (&'a [u8], Option<&'a [u8]>)) -> Tokenizer<'a> {
        Tokenizer { username: value.0, password: value.1 }
    }
}

impl Auth {
    /// Decodes both parts of the tokenizer as UTF-8; fails naming the
    /// first part that is not valid UTF-8.
    pub fn parse(tokenizer: Tokenizer) -> (r: Result<Auth, Error>)
        ensures
            r is Ok <==> (valid_utf8(tokenizer.username@) && (tokenizer.password matches Some(
                p,
            ) ==> valid_utf8(p@))),
            r matches Ok(a) ==> {
                &&& a.username@ == decode_utf8(tokenizer.username@)
                &&& opt_text(a.password) == opt_decoded(tokenizer.password)
            },
            r matches Err(e) ==> (if valid_utf8(tokenizer.username@) {
                e == Error::Utf8(Field::Password)
            } else {
                e == Error::Utf8(Field::Username)
            }),
    {
        let username = match decode_field(tokenizer.username, Field::Username) {
            Ok(u) => u,
            Err(e) => return Err(e),
        };
        let password = match decode_opt_field(tokenizer.password, Field::Password) {
            Ok(p) => p,
            Err(e) => return Err(e),
        };
        Ok(Auth { username, password })
    }
}

} // verus!
