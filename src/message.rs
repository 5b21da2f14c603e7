//! Tokenizers for a whole message: start-line, header lines and body.
use crate::auth::Mismatch;
use crate::scan::{
    find, find_pattern, occurs_at, matches_at, starts_with, skip_from, skip_while_eq, slices_view,
    split_all_pattern, split_first, split_once, split_pattern, COLON, CR, DOT, LF,
    SP,
};
use crate::uri::{uri_spec, UriParts, UriTokenizer};
use vstd::prelude::*;
use vstd::slice::slice_subrange;

verus! {

/// The line terminator.
pub open spec fn crlf() -> Seq<u8> {
    seq![CR, LF]
}

/// The empty line that ends the headers.
pub open spec fn blank_line() -> Seq<u8> {
    seq![CR, LF, CR, LF]
}

/// `SIP/`, the fixed start of a version token.
pub open spec fn version_marker() -> Seq<u8> {
    seq![83u8, 73u8, 80u8, 47u8]
}

/// `s` ends with a line terminator.
pub open spec fn ends_with_crlf(s: Seq<u8>) -> bool {
    s.len() >= 2 && occurs_at(s, s.len() - 2, crlf())
}

/// Start-line and header lines: what precedes the first empty line, or,
/// without one, the whole input less a final line terminator.
pub open spec fn head_of(s: Seq<u8>) -> Seq<u8> {
    match find(s, blank_line()) {
        Some(i) => s.take(i),
        None => if ends_with_crlf(s) {
            s.take(s.len() - 2)
        } else {
            s
        },
    }
}

/// The body: what follows the first empty line, or nothing.
pub open spec fn body_of(s: Seq<u8>) -> Seq<u8> {
    match find(s, blank_line()) {
        Some(i) => s.skip(i + 4),
        None => Seq::empty(),
    }
}

/// The lines of the head; the first is the start-line.
pub open spec fn lines_of(s: Seq<u8>) -> Seq<Seq<u8>> {
    split_pattern(head_of(s), crlf())
}

/// A header line as bytes: name and value.
pub type HeaderParts = (Seq<u8>, Seq<u8>);

/// `name:value`, with the spaces that open the value left out.
pub open spec fn header_spec(line: Seq<u8>) -> Option<HeaderParts> {
    match split_first(line, COLON) {
        (name, Some(v)) => Some((name, v.skip(skip_from(v, SP, 0)))),
        (_, None) => None,
    }
}

/// The parts of a header line whose grammar matched.
pub open spec fn header_of(line: Seq<u8>) -> HeaderParts {
    match header_spec(line) {
        Some(h) => h,
        None => arbitrary(),
    }
}

/// Header lines; they match when every line does.
pub open spec fn headers_spec(lines: Seq<Seq<u8>>) -> Option<Seq<HeaderParts>> {
    if forall|i: int| 0 <= i < lines.len() ==> (#[trigger] header_spec(lines[i])) is Some {
        Some(lines.map_values(|l: Seq<u8>| header_of(l)))
    } else {
        None
    }
}

/// `SIP/major.minor`.
pub open spec fn version_spec(v: Seq<u8>) -> Option<(Seq<u8>, Seq<u8>)> {
    if occurs_at(v, 0, version_marker()) {
        match split_first(v.skip(4), DOT) {
            (major, Some(minor)) => Some((major, minor)),
            (_, None) => None,
        }
    } else {
        None
    }
}

/// Splits a message into head and body.
pub fn split_head(s: &[u8]) -> (r: (&[u8], &[u8]))
    ensures
        r.0@ == head_of(s@),
        r.1@ == body_of(s@),
{
    let blank: [u8; 4] = [CR, LF, CR, LF];
    assert(blank@ =~= blank_line());
    match find_pattern(s, blank.as_slice()) {
        Some(i) => {
            let len = s.len();
            let head = slice_subrange(s, 0, i);
            let body = slice_subrange(s, i + 4, len);
            assert(head@ =~= s@.take(i as int));
            assert(body@ =~= s@.skip(i + 4));
            (head, body)
        },
        None => {
            let end: [u8; 2] = [CR, LF];
            assert(end@ =~= crlf());
            let empty = slice_subrange(s, 0, 0);
            assert(empty@ =~= Seq::<u8>::empty());
            if s.len() >= 2 && matches_at(s, s.len() - 2, end.as_slice()) {
                let head = slice_subrange(s, 0, s.len() - 2);
                assert(head@ =~= s@.take(s@.len() - 2));
                (head, empty)
            } else {
                (s, empty)
            }
        },
    }
}

/// The lines of the head of a message.
pub fn split_lines(s: &[u8]) -> (r: (Vec<&[u8]>, &[u8]))
    ensures
        slices_view(r.0@) == lines_of(s@),
        r.0@.len() >= 1,
        r.1@ == body_of(s@),
{
    let (head, body) = split_head(s);
    let end: [u8; 2] = [CR, LF];
    assert(end@ =~= crlf());
    (split_all_pattern(head, end.as_slice()), body)
}

/// A header line as ranges of the input buffer.
#[derive(Debug, PartialEq, Eq, Clone, Copy)]
pub struct HeaderTokenizer<'a> {
    pub name: &'a [u8],
    pub value: &'a [u8],
}

impl<'a> View for HeaderTokenizer<'a> {
    type V = HeaderParts;

    open spec fn view(&self) -> HeaderParts {
        (self.name@, self.value@)
    }
}

impl<'a> HeaderTokenizer<'a> {
    /// Splits `name: value` on its first `:`.
    pub fn tokenize(line: &'a [u8]) -> (r: Result<HeaderTokenizer<'a>, Mismatch>)
        ensures
            r is Ok <==> header_spec(line@) is Some,
            r matches Ok(h) ==> header_spec(line@) == Some(h@),
    {
        match split_once(line, COLON) {
            (name, Some(v)) => {
                let k = skip_while_eq(v, SP);
                let value = slice_subrange(v, k, v.len());
                assert(value@ =~= v@.skip(k as int));
                Ok(HeaderTokenizer { name, value })
            },
            (_, None) => Err(Mismatch {}),
        }
    }
}

/// Tokenizes the header lines `lines[1..]`, in order.
pub fn tokenize_headers<'a>(lines: &Vec<&'a [u8]>) -> (r: Result<Vec<HeaderTokenizer<'a>>, Mismatch>)
    requires
        lines@.len() >= 1,
    ensures
        r is Ok <==> headers_spec(slices_view(lines@).skip(1)) is Some,
        r matches Ok(v) ==> headers_spec(slices_view(lines@).skip(1)) == Some(
            v@.map_values(|h: HeaderTokenizer<'a>| h@),
        ),
{
    let ghost ls = slices_view(lines@).skip(1);
    let mut out: Vec<HeaderTokenizer<'a>> = Vec::new();
    let mut i: usize = 1;
    while i < lines.len()
        invariant
            ls == slices_view(lines@).skip(1),
            1 <= i <= lines@.len(),
            out@.len() == i - 1,
            forall|j: int| 0 <= j < i - 1 ==> (#[trigger] header_spec(ls[j])) is Some,
            forall|j: int| 0 <= j < i - 1 ==> header_of(ls[j]) == (#[trigger] out@[j])@,
        decreases lines@.len() - i,
    {
        match HeaderTokenizer::tokenize(lines[i]) {
            Ok(h) => out.push(h),
            Err(m) => {
                assert(header_spec(ls[i - 1]) is None);
                return Err(m);
            },
        }
        i += 1;
    }
    assert(out@.map_values(|h: HeaderTokenizer<'a>| h@) =~= ls.map_values(
        |l: Seq<u8>| header_of(l),
    ));
    Ok(out)
}

/// Splits `SIP/major.minor`.
pub fn tokenize_version(v: &[u8]) -> (r: Result<(&[u8], &[u8]), Mismatch>)
    ensures
        r is Ok <==> version_spec(v@) is Some,
        r matches Ok((a, b)) ==> version_spec(v@) == Some((a@, b@)),
{
    let marker: [u8; 4] = [83, 73, 80, 47];
    assert(marker@ =~= version_marker());
    if !starts_with(v, marker.as_slice()) {
        return Err(Mismatch {});
    }
    let rest = slice_subrange(v, 4, v.len());
    assert(rest@ =~= v@.skip(4));
    match split_once(rest, DOT) {
        (major, Some(minor)) => Ok((major, minor)),
        (_, None) => Err(Mismatch {}),
    }
}

/// An ASCII decimal digit.
pub open spec fn is_digit_byte(b: u8) -> bool {
    48 <= b <= 57
}

/// Three ASCII digits.
pub open spec fn status_code_ok(c: Seq<u8>) -> bool {
    c.len() == 3 && is_digit_byte(c[0]) && is_digit_byte(c[1]) && is_digit_byte(c[2])
}

/// A status line as bytes: version major, version minor, code, reason.
pub type StatusLineParts = (Seq<u8>, Seq<u8>, Seq<u8>, Seq<u8>);

/// `SIP/major.minor code[ reason]`, where the code is three digits.
pub open spec fn status_line_spec(l: Seq<u8>) -> Option<StatusLineParts> {
    match split_first(l, SP) {
        (v, Some(rest)) => match version_spec(v) {
            Some((major, minor)) => {
                let code = split_first(rest, SP).0;
                let reason = match split_first(rest, SP).1 {
                    Some(x) => x,
                    None => Seq::empty(),
                };
                if status_code_ok(code) {
                    Some((major, minor, code, reason))
                } else {
                    None
                }
            },
            None => None,
        },
        (_, None) => None,
    }
}

/// A request line as bytes: method, target URI, version major, version minor.
pub type RequestLineParts = (Seq<u8>, UriParts, Seq<u8>, Seq<u8>);

/// `method uri SIP/major.minor`, with a non-empty method.
pub open spec fn request_line_spec(l: Seq<u8>) -> Option<RequestLineParts> {
    match split_first(l, SP) {
        (m, Some(r1)) => match split_first(r1, SP) {
            (u, Some(v)) => match (uri_spec(u), version_spec(v)) {
                (Some(uri), Some((major, minor))) => if m.len() > 0 {
                    Some((m, uri, major, minor))
                } else {
                    None
                },
                _ => None,
            },
            (_, None) => None,
        },
        (_, None) => None,
    }
}

/// A response as bytes: status line, headers, body.
pub type ResponseParts = (StatusLineParts, Seq<HeaderParts>, Seq<u8>);

/// A request as bytes: request line, headers, body.
pub type RequestParts = (RequestLineParts, Seq<HeaderParts>, Seq<u8>);

/// The message read as a response.
pub open spec fn response_spec(s: Seq<u8>) -> Option<ResponseParts> {
    let ls = lines_of(s);
    match (status_line_spec(ls[0]), headers_spec(ls.skip(1))) {
        (Some(a), Some(h)) => Some((a, h, body_of(s))),
        _ => None,
    }
}

/// The message read as a request.
pub open spec fn request_spec(s: Seq<u8>) -> Option<RequestParts> {
    let ls = lines_of(s);
    match (request_line_spec(ls[0]), headers_spec(ls.skip(1))) {
        (Some(a), Some(h)) => Some((a, h, body_of(s))),
        _ => None,
    }
}

/// A response as ranges of the input buffer.
#[derive(Debug, PartialEq, Eq, Clone)]
pub struct ResponseTokenizer<'a> {
    pub version_major: &'a [u8],
    pub version_minor: &'a [u8],
    pub status_code: &'a [u8],
    pub reason: &'a [u8],
    pub headers: Vec<HeaderTokenizer<'a>>,
    pub body: &'a [u8],
}

impl<'a> View for ResponseTokenizer<'a> {
    type V = ResponseParts;

    open spec fn view(&self) -> ResponseParts {
        (
            (self.version_major@, self.version_minor@, self.status_code@, self.reason@),
            self.headers@.map_values(|h: HeaderTokenizer<'a>| h@),
            self.body@,
        )
    }
}

/// A request as ranges of the input buffer.
#[derive(Debug, PartialEq, Eq, Clone)]
pub struct RequestTokenizer<'a> {
    pub method: &'a [u8],
    pub uri: UriTokenizer<'a>,
    pub version_major: &'a [u8],
    pub version_minor: &'a [u8],
    pub headers: Vec<HeaderTokenizer<'a>>,
    pub body: &'a [u8],
}

impl<'a> View for RequestTokenizer<'a> {
    type V = RequestParts;

    open spec fn view(&self) -> RequestParts {
        (
            (self.method@, self.uri@, self.version_major@, self.version_minor@),
            self.headers@.map_values(|h: HeaderTokenizer<'a>| h@),
            self.body@,
        )
    }
}

/// An empty range at the end of `s`: what is left once all of it is consumed.
fn consumed<'a>(s: &'a [u8]) -> (r: &'a [u8])
    ensures
        r@.len() == 0,
{
    let len = s.len();
    slice_subrange(s, len, len)
}

impl<'a> ResponseTokenizer<'a> {
    /// Tokenizes a whole response; the body is part of the result, so the
    /// remainder is always empty.
    pub fn tokenize(part: &'a [u8]) -> (r: Result<(&'a [u8], ResponseTokenizer<'a>), Mismatch>)
        ensures
            r is Ok <==> response_spec(part@) is Some,
            r matches Ok((rem, t)) ==> response_spec(part@) == Some(t@) && rem@.len() == 0,
    {
        let (lines, body) = split_lines(part);
        let line = lines[0];
        let (v, rest) = split_once(line, SP);
        let rest = match rest {
            Some(x) => x,
            None => return Err(Mismatch {}),
        };
        let (version_major, version_minor) = match tokenize_version(v) {
            Ok(x) => x,
            Err(m) => return Err(m),
        };
        let (status_code, reason) = split_once(rest, SP);
        if status_code.len() != 3 || !(48 <= status_code[0] && status_code[0] <= 57)
            || !(48 <= status_code[1] && status_code[1] <= 57) || !(48 <= status_code[2]
            && status_code[2] <= 57) {
            return Err(Mismatch {});
        }
        let reason = match reason {
            Some(x) => x,
            None => {
                let e = slice_subrange(rest, 0, 0);
                assert(e@ =~= Seq::<u8>::empty());
                e
            },
        };
        let headers = match tokenize_headers(&lines) {
            Ok(h) => h,
            Err(m) => return Err(m),
        };
        let t = ResponseTokenizer {
            version_major,
            version_minor,
            status_code,
            reason,
            headers,
            body,
        };
        Ok((consumed(part), t))
    }
}

impl<'a> RequestTokenizer<'a> {
    /// Tokenizes a whole request; the body is part of the result, so the
    /// remainder is always empty.
    pub fn tokenize(part: &'a [u8]) -> (r: Result<(&'a [u8], RequestTokenizer<'a>), Mismatch>)
        ensures
            r is Ok <==> request_spec(part@) is Some,
            r matches Ok((rem, t)) ==> request_spec(part@) == Some(t@) && rem@.len() == 0,
    {
        let (lines, body) = split_lines(part);
        let line = lines[0];
        let (method, r1) = split_once(line, SP);
        let r1 = match r1 {
            Some(x) => x,
            None => return Err(Mismatch {}),
        };
        let (u, v) = split_once(r1, SP);
        let v = match v {
            Some(x) => x,
            None => return Err(Mismatch {}),
        };
        let uri = match UriTokenizer::tokenize(u) {
            Ok(x) => x,
            Err(m) => return Err(m),
        };
        let (version_major, version_minor) = match tokenize_version(v) {
            Ok(x) => x,
            Err(m) => return Err(m),
        };
        if method.len() == 0 {
            return Err(Mismatch {});
        }
        let headers = match tokenize_headers(&lines) {
            Ok(h) => h,
            Err(m) => return Err(m),
        };
        let t = RequestTokenizer { method, uri, version_major, version_minor, headers, body };
        Ok((consumed(part), t))
    }
}

/// A whole message as ranges of the input buffer: a request or a response.
#[derive(Debug, PartialEq, Eq, Clone)]
pub enum Tokenizer<'a> {
    Request(RequestTokenizer<'a>),
    Response(ResponseTokenizer<'a>),
}

impl<'a> From<RequestTokenizer<'a>> for Tokenizer<'a> {
    fn from(t: RequestTokenizer<'a>) -> (r: Tokenizer<'a>)
        ensures
            r == Tokenizer::Request(t),
    {
        Tokenizer::Request(t)
    }
}

impl<'a> vstd::std_specs::convert::FromSpecImpl<RequestTokenizer<'a>> for Tokenizer<'a> {
    open spec fn obeys_from_spec() -> bool {
        true
    }

    open spec fn from_spec(t: RequestTokenizer<'a>) -> Tokenizer<'a> {
        Tokenizer::Request(t)
    }
}

impl<'a> From<ResponseTokenizer<'a>> for Tokenizer<'a> {
    fn from(t: ResponseTokenizer<'a>) -> (r: Tokenizer<'a>)
        ensures
            r == Tokenizer::Response(t),
    {
        Tokenizer::Response(t)
    }
}

impl<'a> vstd::std_specs::convert::FromSpecImpl<ResponseTokenizer<'a>> for Tokenizer<'a> {
    open spec fn obeys_from_spec() -> bool {
        true
    }

    open spec fn from_spec(t: ResponseTokenizer<'a>) -> Tokenizer<'a> {
        Tokenizer::Response(t)
    }
}

impl<'a> Tokenizer<'a> {
    /// Tokenizes a whole message. The status-line grammar, which opens with
    /// a fixed token, is tried first; the request-line grammar only where it
    /// does not match. The body is part of the result, so the remainder is
    /// always empty.
    pub fn tokenize(part: &'a [u8]) -> (r: Result<(&'a [u8], Tokenizer<'a>), Mismatch>)
        ensures
            r is Ok <==> (response_spec(part@) is Some || request_spec(part@) is Some),
            r matches Ok((rem, t)) ==> rem@.len() == 0,
            r matches Ok((_, Tokenizer::Response(t))) ==> response_spec(part@) == Some(t@),
            r matches Ok((_, Tokenizer::Request(t))) ==> response_spec(part@) is None
                && request_spec(part@) == Some(t@),
    {
        match ResponseTokenizer::tokenize(part) {
            Ok((rem, t)) => Ok((rem, Tokenizer::Response(t))),
            Err(_) => match RequestTokenizer::tokenize(part) {
                Ok((rem, t)) => Ok((rem, Tokenizer::Request(t))),
                Err(m) => Err(m),
            },
        }
    }
}

} // verus!
