//! URIs, their parameters, and comma-separated lists of both.
use crate::auth::{has_authority, userinfo_end, Auth, Mismatch, Tokenizer as AuthTokenizer};
use crate::error::{Error, Field, Production};
use crate::scan::{
    opt_slice_view, position_of_either, split_all, split_first, split_once, split_on,
    slices_view, till, COLON, COMMA, EQUALS, SEMICOLON,
};
use crate::text::{decode_both, decode_field, decode_parts, opt_text, valid_parts, Parts, TextParts};
use vstd::prelude::*;
use vstd::slice::slice_subrange;
use vstd::utf8::{decode_utf8, valid_utf8};

verus! {

/// A URI as bytes: scheme, optional authority, host.
pub type UriParts = (Seq<u8>, Option<Parts>, Seq<u8>);

/// A URI as characters: scheme, optional authority, host.
pub type UriText = (Seq<char>, Option<TextParts>, Seq<char>);

/// `scheme:[user[:password]@]host`: the scheme ends at the first `:`; the
/// authority is present exactly where its own grammar matches what follows.
pub open spec fn uri_spec(s: Seq<u8>) -> Option<UriParts> {
    let c = till(s, COLON, COLON);
    if c < s.len() {
        let after = s.skip(c + 1);
        if has_authority(after) {
            Some(
                (
                    s.take(c),
                    Some(split_first(after.take(userinfo_end(after)), COLON)),
                    after.skip(userinfo_end(after) + 1),
                ),
            )
        } else {
            Some((s.take(c), None, after))
        }
    } else {
        None
    }
}

/// All fields of the URI are valid UTF-8.
pub open spec fn valid_uri(u: UriParts) -> bool {
    valid_utf8(u.0) && (u.1 matches Some(a) ==> valid_parts(a)) && valid_utf8(u.2)
}

/// The URI with every field decoded.
pub open spec fn decode_uri(u: UriParts) -> UriText {
    (
        decode_utf8(u.0),
        match u.1 {
            Some(a) => Some(decode_parts(a)),
            None => None,
        },
        decode_utf8(u.2),
    )
}

/// The first field of an invalid URI that is not valid UTF-8, in the
/// order scheme, username, password, host.
pub open spec fn uri_error_field(u: UriParts) -> Field {
    if !valid_utf8(u.0) {
        Field::Scheme
    } else if u.1 matches Some(a) && !valid_utf8(a.0) {
        Field::Username
    } else if u.1 matches Some(a) && !valid_parts(a) {
        Field::Password
    } else {
        Field::Host
    }
}

/// One list element as bytes: its URI and its parameters in order.
pub type EntryParts = (UriParts, Seq<Parts>);

/// One list element as characters.
pub type EntryText = (UriText, Seq<TextParts>);

/// `uri(;name[=value])*`: the first `;`-piece is the URI, each later piece
/// a parameter split on its first `=`.
pub open spec fn entry_spec(s: Seq<u8>) -> Option<EntryParts> {
    let pieces = split_on(s, SEMICOLON);
    match uri_spec(pieces[0]) {
        Some(u) => Some((u, pieces.skip(1).map_values(|p: Seq<u8>| split_first(p, EQUALS)))),
        None => None,
    }
}

/// The parts of an element whose grammar matched.
pub open spec fn entry_of(s: Seq<u8>) -> EntryParts {
    match entry_spec(s) {
        Some(e) => e,
        None => arbitrary(),
    }
}

/// A comma-separated list of elements; it matches when every element does.
pub open spec fn list_spec(s: Seq<u8>) -> Option<Seq<EntryParts>> {
    let elems = split_on(s, COMMA);
    if forall|i: int| 0 <= i < elems.len() ==> (#[trigger] entry_spec(elems[i])) is Some {
        Some(elems.map_values(|e: Seq<u8>| entry_of(e)))
    } else {
        None
    }
}

/// Every field of the element is valid UTF-8.
pub open spec fn valid_entry(e: EntryParts) -> bool {
    valid_uri(e.0) && forall|i: int| 0 <= i < e.1.len() ==> valid_parts(#[trigger] e.1[i])
}

/// The element with every field decoded.
pub open spec fn decode_entry(e: EntryParts) -> EntryText {
    (decode_uri(e.0), e.1.map_values(|p: Parts| decode_parts(p)))
}

/// Every element of the list is valid UTF-8.
pub open spec fn valid_list(l: Seq<EntryParts>) -> bool {
    forall|i: int| 0 <= i < l.len() ==> valid_entry(#[trigger] l[i])
}

/// The list with every element decoded, in the same order.
pub open spec fn decode_list(l: Seq<EntryParts>) -> Seq<EntryText> {
    l.map_values(|e: EntryParts| decode_entry(e))
}

/// A converted list has one element per comma-separated piece of the
/// source, and its `i`-th element is the `i`-th piece decoded: the
/// conversion neither reorders, merges nor drops elements.
pub proof fn lemma_list_order(s: Seq<u8>, i: int)
    requires
        list_spec(s) is Some,
        0 <= i < split_on(s, COMMA).len(),
    ensures
        decode_list(list_spec(s)->0).len() == split_on(s, COMMA).len(),
        decode_list(list_spec(s)->0)[i] == decode_entry(entry_of(split_on(s, COMMA)[i])),
{
}

/// The field of the first parameter that is not valid UTF-8: its name if
/// that fails, else its value.
pub open spec fn params_error_field(ps: Seq<Parts>) -> Field
    decreases ps.len(),
{
    if ps.len() == 0 {
        Field::ParamName
    } else if !valid_utf8(ps[0].0) {
        Field::ParamName
    } else if !valid_parts(ps[0]) {
        Field::ParamValue
    } else {
        params_error_field(ps.drop_first())
    }
}

/// The first field of an element that is not valid UTF-8: in its URI,
/// else in its parameters.
pub open spec fn entry_error_field(e: EntryParts) -> Field {
    if !valid_uri(e.0) {
        uri_error_field(e.0)
    } else {
        params_error_field(e.1)
    }
}

/// The failing field of the first element that is not valid UTF-8.
pub open spec fn list_error_field(l: Seq<EntryParts>) -> Field
    decreases l.len(),
{
    if l.len() == 0 {
        Field::Scheme
    } else if !valid_entry(l[0]) {
        entry_error_field(l[0])
    } else {
        list_error_field(l.drop_first())
    }
}

/// A URI in its owned, decoded form.
#[derive(Debug, PartialEq, Eq, Clone)]
pub struct Uri {
    pub scheme: String,
    pub auth: Option<Auth>,
    pub host: String,
}

impl View for Uri {
    type V = UriText;

    open spec fn view(&self) -> UriText {
        (
            self.scheme@,
            match self.auth {
                Some(a) => Some((a.username@, opt_text(a.password))),
                None => None,
            },
            self.host@,
        )
    }
}

/// A URI as ranges of the input buffer.
#[derive(Debug, PartialEq, Eq, Clone, Copy)]
pub struct UriTokenizer<'a> {
    pub scheme: &'a [u8],
    pub auth: Option<AuthTokenizer<'a>>,
    pub host: &'a [u8],
}

impl<'a> View for UriTokenizer<'a> {
    type V = UriParts;

    open spec fn view(&self) -> UriParts {
        (
            self.scheme@,
            match self.auth {
                Some(a) => Some(a.spec_parts()),
                None => None,
            },
            self.host@,
        )
    }
}

impl<'a> UriTokenizer<'a> {
    /// Splits a URI into scheme, authority and host. Where the authority
    /// grammar does not match, the no-authority form is taken.
    pub fn tokenize(part: &'a [u8]) -> (r: Result<UriTokenizer<'a>, Mismatch>)
        ensures
            r is Ok <==> uri_spec(part@) is Some,
            r matches Ok(t) ==> uri_spec(part@) == Some(t@),
    {
        let c = position_of_either(part, COLON, COLON);
        if c >= part.len() {
            return Err(Mismatch {});
        }
        let scheme = slice_subrange(part, 0, c);
        let after = slice_subrange(part, c + 1, part.len());
        assert(scheme@ =~= part@.take(c as int));
        assert(after@ =~= part@.skip(c + 1));
        let t = match AuthTokenizer::tokenize(after) {
            Ok((host, auth)) => UriTokenizer { scheme, auth: Some(auth), host },
            Err(_) => UriTokenizer { scheme, auth: None, host: after },
        };
        Ok(t)
    }
}

impl Uri {
    /// Decodes every field of the tokenizer as UTF-8.
    pub fn parse(t: UriTokenizer) -> (r: Result<Uri, Error>)
        ensures
            r is Ok <==> valid_uri(t@),
            r matches Ok(u) ==> u@ == decode_uri(t@),
            r matches Err(e) ==> e == Error::Utf8(uri_error_field(t@)),
    {
        let scheme = match decode_field(t.scheme, Field::Scheme) {
            Ok(s) => s,
            Err(e) => return Err(e),
        };
        let auth = match t.auth {
            Some(a) => match Auth::parse(a) {
                Ok(x) => Some(x),
                Err(e) => return Err(e),
            },
            None => None,
        };
        let host = match decode_field(t.host, Field::Host) {
            Ok(h) => h,
            Err(e) => return Err(e),
        };
        Ok(Uri { scheme, auth, host })
    }
}

/// A parameter in its owned, decoded form: `name[=value]`.
#[derive(Debug, PartialEq, Eq, Clone)]
pub struct Param {
    pub name: String,
    pub value: Option<String>,
}

impl View for Param {
    type V = TextParts;

    open spec fn view(&self) -> TextParts {
        (self.name@, opt_text(self.value))
    }
}

/// A parameter as ranges of the input buffer.
#[derive(Debug, PartialEq, Eq, Clone, Copy)]
pub struct ParamTokenizer<'a> {
    pub name: &'a [u8],
    pub value: Option<&'a [u8]>,
}

impl<'a> View for ParamTokenizer<'a> {
    type V = Parts;

    open spec fn view(&self) -> Parts {
        (self.name@, opt_slice_view(self.value))
    }
}

impl<'a> ParamTokenizer<'a> {
    /// Splits a parameter on its first `=`.
    pub fn tokenize(part: &'a [u8]) -> (r: ParamTokenizer<'a>)
        ensures
            r@ == split_first(part@, EQUALS),
    {
        let (name, value) = split_once(part, EQUALS);
        ParamTokenizer { name, value }
    }
}

impl Param {
    /// Decodes the name and the value as UTF-8.
    pub fn parse(t: ParamTokenizer) -> (r: Result<Param, Error>)
        ensures
            r is Ok <==> valid_parts(t@),
            r matches Ok(p) ==> p@ == decode_parts(t@),
            r matches Err(e) ==> e == Error::Utf8(
                if valid_utf8(t@.0) {
                    Field::ParamValue
                } else {
                    Field::ParamName
                },
            ),
    {
        match decode_both(t.name, t.value, Field::ParamName, Field::ParamValue) {
            Ok((name, value)) => Ok(Param { name, value }),
            Err(e) => Err(e),
        }
    }
}

/// A URI with its parameters, owned and decoded.
#[derive(Debug, PartialEq, Eq, Clone)]
pub struct UriWithParams {
    pub uri: Uri,
    pub params: Vec<Param>,
}

impl View for UriWithParams {
    type V = EntryText;

    open spec fn view(&self) -> EntryText {
        (self.uri@, self.params@.map_values(|p: Param| p@))
    }
}

/// A URI with its parameters, as ranges of the input buffer.
#[derive(Debug, PartialEq, Eq, Clone)]
pub struct UriWithParamsTokenizer<'a> {
    pub uri: UriTokenizer<'a>,
    pub params: Vec<ParamTokenizer<'a>>,
}

impl<'a> View for UriWithParamsTokenizer<'a> {
    type V = EntryParts;

    open spec fn view(&self) -> EntryParts {
        (self.uri@, self.params@.map_values(|p: ParamTokenizer<'a>| p@))
    }
}

impl<'a> UriWithParamsTokenizer<'a> {
    /// Splits `uri(;name[=value])*` into the URI and its parameters, in order.
    pub fn tokenize(part: &'a [u8]) -> (r: Result<UriWithParamsTokenizer<'a>, Mismatch>)
        ensures
            r is Ok <==> entry_spec(part@) is Some,
            r matches Ok(t) ==> entry_spec(part@) == Some(t@),
    {
        let pieces = split_all(part, SEMICOLON);
        let ghost pv = slices_view(pieces@);
        let uri = match UriTokenizer::tokenize(pieces[0]) {
            Ok(u) => u,
            Err(m) => return Err(m),
        };
        let mut params: Vec<ParamTokenizer<'a>> = Vec::new();
        let mut i: usize = 1;
        while i < pieces.len()
            invariant
                pv == slices_view(pieces@),
                1 <= i <= pieces@.len(),
                params@.len() == i - 1,
                forall|j: int|
                    0 <= j < i - 1 ==> (#[trigger] params@[j])@ == split_first(pv[j + 1], EQUALS),
            decreases pieces@.len() - i,
        {
            params.push(ParamTokenizer::tokenize(pieces[i]));
            i += 1;
        }
        let t = UriWithParamsTokenizer { uri, params };
        assert(t@.1 =~= pv.skip(1).map_values(|p: Seq<u8>| split_first(p, EQUALS)));
        Ok(t)
    }
}

impl UriWithParams {
    /// Decodes the URI and each parameter, keeping their order.
    pub fn parse(t: &UriWithParamsTokenizer) -> (r: Result<UriWithParams, Error>)
        ensures
            r is Ok <==> valid_entry(t@),
            r matches Ok(v) ==> v@ == decode_entry(t@),
            r matches Err(e) ==> e == Error::Utf8(entry_error_field(t@)),
    {
        let ghost tv = t@;
        assert(tv.1.skip(0) =~= tv.1);
        let uri = match Uri::parse(t.uri) {
            Ok(u) => u,
            Err(e) => return Err(e),
        };
        let mut params: Vec<Param> = Vec::new();
        let mut i: usize = 0;
        while i < t.params.len()
            invariant
                tv == t@,
                valid_uri(tv.0),
                uri@ == decode_uri(tv.0),
                i <= t.params@.len(),
                params@.len() == i,
                params_error_field(tv.1) == params_error_field(tv.1.skip(i as int)),
                forall|j: int| 0 <= j < i ==> valid_parts(#[trigger] tv.1[j]),
                forall|j: int| 0 <= j < i ==> (#[trigger] params@[j])@ == decode_parts(tv.1[j]),
            decreases t.params@.len() - i,
        {
            assert(tv.1.skip(i as int)[0] == tv.1[i as int]);
            assert(tv.1.skip(i as int).drop_first() =~= tv.1.skip(i + 1));
            match Param::parse(t.params[i]) {
                Ok(p) => params.push(p),
                Err(e) => {
                    assert(!valid_parts(tv.1[i as int]));
                    return Err(e);
                },
            }
            i += 1;
        }
        let v = UriWithParams { uri, params };
        assert(v@.1 =~= tv.1.map_values(|p: Parts| decode_parts(p)));
        Ok(v)
    }
}

/// An ordered list of URIs with parameters, owned and decoded. The order is
/// the order of the source text.
#[derive(Debug, PartialEq, Eq, Clone)]
pub struct UriWithParamsList(pub Vec<UriWithParams>);

impl View for UriWithParamsList {
    type V = Seq<EntryText>;

    open spec fn view(&self) -> Seq<EntryText> {
        self.0@.map_values(|e: UriWithParams| e@)
    }
}

/// An ordered list of URIs with parameters, as ranges of the input buffer.
#[derive(Debug, PartialEq, Eq, Clone)]
pub struct UriWithParamsListTokenizer<'a> {
    pub values: Vec<UriWithParamsTokenizer<'a>>,
}

impl<'a> View for UriWithParamsListTokenizer<'a> {
    type V = Seq<EntryParts>;

    open spec fn view(&self) -> Seq<EntryParts> {
        self.values@.map_values(|e: UriWithParamsTokenizer<'a>| e@)
    }
}

impl<'a> UriWithParamsListTokenizer<'a> {
    /// Splits a comma-separated list and tokenizes each element, keeping
    /// the order; fails if any element fails.
    pub fn tokenize(part: &'a [u8]) -> (r: Result<UriWithParamsListTokenizer<'a>, Mismatch>)
        ensures
            r is Ok <==> list_spec(part@) is Some,
            r matches Ok(t) ==> list_spec(part@) == Some(t@),
    {
        let elems = split_all(part, COMMA);
        let ghost ev = slices_view(elems@);
        let mut values: Vec<UriWithParamsTokenizer<'a>> = Vec::new();
        let mut i: usize = 0;
        while i < elems.len()
            invariant
                ev == slices_view(elems@),
                ev == split_on(part@, COMMA),
                i <= elems@.len(),
                values@.len() == i,
                forall|j: int| 0 <= j < i ==> (#[trigger] entry_spec(ev[j])) is Some,
                forall|j: int| 0 <= j < i ==> entry_of(ev[j]) == (#[trigger] values@[j])@,
            decreases elems@.len() - i,
        {
            match UriWithParamsTokenizer::tokenize(elems[i]) {
                Ok(v) => values.push(v),
                Err(m) => {
                    assert(entry_spec(ev[i as int]) is None);
                    return Err(m);
                },
            }
            i += 1;
        }
        let t = UriWithParamsListTokenizer { values };
        assert(t@ =~= ev.map_values(|e: Seq<u8>| entry_of(e)));
        Ok(t)
    }
}

impl UriWithParamsList {
    /// Decodes every element in order; the whole list fails if one does.
    pub fn parse(t: &UriWithParamsListTokenizer) -> (r: Result<UriWithParamsList, Error>)
        ensures
            r is Ok <==> valid_list(t@),
            r matches Ok(l) ==> l@ == decode_list(t@),
            r matches Err(e) ==> e == Error::Utf8(list_error_field(t@)),
    {
        assert(t@.skip(0) =~= t@);
        let mut out: Vec<UriWithParams> = Vec::new();
        let mut i: usize = 0;
        while i < t.values.len()
            invariant
                i <= t.values@.len(),
                out@.len() == i,
                list_error_field(t@) == list_error_field(t@.skip(i as int)),
                forall|j: int| 0 <= j < i ==> valid_entry(#[trigger] t@[j]),
                forall|j: int| 0 <= j < i ==> (#[trigger] out@[j])@ == decode_entry(t@[j]),
            decreases t.values@.len() - i,
        {
            assert(t@.skip(i as int)[0] == t@[i as int]);
            assert(t@.skip(i as int).drop_first() =~= t@.skip(i + 1));
            match UriWithParams::parse(&t.values[i]) {
                Ok(v) => out.push(v),
                Err(e) => {
                    assert(!valid_entry(t@[i as int]));
                    return Err(e);
                },
            }
            i += 1;
        }
        let l = UriWithParamsList(out);
        assert(l@ =~= decode_list(t@));
        Ok(l)
    }

    /// The elements, in source order.
    pub fn uris(&self) -> (r: &[UriWithParams])
        ensures
            r@ == self.0@,
    {
        self.0.as_slice()
    }
}

/// Tokenizes and converts a comma-separated list of URIs with parameters.
pub fn parse_uri_list(part: &[u8]) -> (r: Result<UriWithParamsList, Error>)
    ensures
        r is Ok <==> (list_spec(part@) matches Some(l) && valid_list(l)),
        r matches Ok(v) ==> list_spec(part@) matches Some(l) && v@ == decode_list(l),
        r matches Err(e) ==> e == match list_spec(part@) {
            Some(l) => Error::Utf8(list_error_field(l)),
            None => Error::Tokenize(Production::UriList),
        },
{
    match UriWithParamsListTokenizer::tokenize(part) {
        Ok(t) => UriWithParamsList::parse(&t),
        Err(_) => Err(Error::Tokenize(Production::UriList)),
    }
}

} // verus!
