//! Owned, validated messages and their conversion from tokenizers.
use crate::error::{Error, Field, Production};
use crate::message::{
    request_spec, response_spec, status_code_ok, HeaderParts, HeaderTokenizer, RequestParts,
    RequestTokenizer, ResponseParts, ResponseTokenizer, Tokenizer,
};
use crate::text::decode_field;
use crate::uri::{decode_uri, uri_error_field, valid_uri, Uri};
use vstd::prelude::*;
use vstd::slice::slice_to_vec;
use vstd::utf8::{decode_utf8, encode_utf8, valid_utf8};

verus! {

/// The protocol version.
#[derive(Debug, Clone, Copy, PartialEq, Eq, Structural)]
pub enum Version {
    V1,
    V2,
}

/// `1.0` and `2.0` are the versions known here.
pub open spec fn version_of(major: Seq<u8>, minor: Seq<u8>) -> Option<Version> {
    if major == seq![49u8] && minor == seq![48u8] {
        Some(Version::V1)
    } else if major == seq![50u8] && minor == seq![48u8] {
        Some(Version::V2)
    } else {
        None
    }
}

/// Reads the version from its major and minor parts.
pub fn parse_version(major: &[u8], minor: &[u8]) -> (r: Result<Version, Error>)
    ensures
        r matches Ok(v) ==> version_of(major@, minor@) == Some(v),
        r matches Err(e) ==> version_of(major@, minor@) is None && e == Error::UnknownVersion,
{
    if minor.len() == 1 && minor[0] == 48 && major.len() == 1 {
        if major[0] == 49 {
            assert(major@ =~= seq![49u8] && minor@ =~= seq![48u8]);
            return Ok(Version::V1);
        }
        if major[0] == 50 {
            assert(major@ =~= seq![50u8] && minor@ =~= seq![48u8]);
            return Ok(Version::V2);
        }
    }
    assert(major@ != seq![49u8] || minor@ != seq![48u8]);
    Err(Error::UnknownVersion)
}

/// A header line, owned and decoded.
#[derive(Debug, PartialEq, Eq, Clone)]
pub struct Header {
    pub name: String,
    pub value: String,
}

/// A header line as characters: name and value.
pub type HeaderText = (Seq<char>, Seq<char>);

/// The header lines of a message, in order.
#[derive(Debug, PartialEq, Eq, Clone)]
pub struct Headers(pub Vec<Header>);

impl View for Headers {
    type V = Seq<HeaderText>;

    open spec fn view(&self) -> Seq<HeaderText> {
        self.0@.map_values(|h: Header| (h.name@, h.value@))
    }
}

/// Every name and value is valid UTF-8.
pub open spec fn valid_headers(hs: Seq<HeaderParts>) -> bool {
    forall|i: int|
        0 <= i < hs.len() ==> valid_utf8((#[trigger] hs[i]).0) && valid_utf8(hs[i].1)
}

/// Every name and value decoded, in order.
pub open spec fn decode_headers(hs: Seq<HeaderParts>) -> Seq<HeaderText> {
    hs.map_values(|h: HeaderParts| (decode_utf8(h.0), decode_utf8(h.1)))
}

/// The field of the first header line that is not valid UTF-8: its name
/// if that fails, else its value.
pub open spec fn headers_error_field(hs: Seq<HeaderParts>) -> Field
    decreases hs.len(),
{
    if hs.len() == 0 {
        Field::HeaderName
    } else if !valid_utf8(hs[0].0) {
        Field::HeaderName
    } else if !valid_utf8(hs[0].1) {
        Field::HeaderValue
    } else {
        headers_error_field(hs.drop_first())
    }
}

impl Headers {
    /// Decodes every header line in order; fails if one does not decode.
    pub fn parse<'a>(v: &Vec<HeaderTokenizer<'a>>) -> (r: Result<Headers, Error>)
        ensures
            r is Ok <==> valid_headers(v@.map_values(|h: HeaderTokenizer<'a>| h@)),
            r matches Ok(h) ==> h@ == decode_headers(v@.map_values(|h: HeaderTokenizer<'a>| h@)),
            r matches Err(e) ==> e == Error::Utf8(
                headers_error_field(v@.map_values(|h: HeaderTokenizer<'a>| h@)),
            ),
    {
        let ghost hs = v@.map_values(|h: HeaderTokenizer<'a>| h@);
        assert(hs.skip(0) =~= hs);
        let mut out: Vec<Header> = Vec::new();
        let mut i: usize = 0;
        while i < v.len()
            invariant
                hs == v@.map_values(|h: HeaderTokenizer<'a>| h@),
                i <= v@.len(),
                out@.len() == i,
                headers_error_field(hs) == headers_error_field(hs.skip(i as int)),
                forall|j: int|
                    0 <= j < i ==> valid_utf8((#[trigger] hs[j]).0) && valid_utf8(hs[j].1),
                forall|j: int|
                    0 <= j < i ==> (#[trigger] out@[j]).name@ == decode_utf8(hs[j].0)
                        && out@[j].value@ == decode_utf8(hs[j].1),
            decreases v@.len() - i,
        {
            assert(hs[i as int] == (v@[i as int].name@, v@[i as int].value@));
            assert(hs.skip(i as int)[0] == hs[i as int]);
            assert(hs.skip(i as int).drop_first() =~= hs.skip(i + 1));
            let name = match decode_field(v[i].name, Field::HeaderName) {
                Ok(x) => x,
                Err(e) => return Err(e),
            };
            let value = match decode_field(v[i].value, Field::HeaderValue) {
                Ok(x) => x,
                Err(e) => return Err(e),
            };
            out.push(Header { name, value });
            i += 1;
        }
        let h = Headers(out);
        assert(h@ =~= decode_headers(hs));
        Ok(h)
    }
}

/// The value of a three-digit status code.
pub open spec fn code_value(c: Seq<u8>) -> int {
    (c[0] - 48) * 100 + (c[1] - 48) * 10 + (c[2] - 48)
}

/// A request, owned and decoded.
#[derive(Debug, PartialEq, Eq, Clone)]
pub struct Request {
    pub method: String,
    pub uri: Uri,
    pub version: Version,
    pub headers: Headers,
    pub body: Vec<u8>,
}

/// A response, owned and decoded.
#[derive(Debug, PartialEq, Eq, Clone)]
pub struct Response {
    pub version: Version,
    pub status_code: u16,
    pub reason: String,
    pub headers: Headers,
    pub body: Vec<u8>,
}

/// Every text field of the request is valid UTF-8.
pub open spec fn valid_request(p: RequestParts) -> bool {
    valid_utf8(p.0.0) && valid_uri(p.0.1) && valid_headers(p.1)
}

/// `q` is the request `p` decoded.
pub open spec fn request_decodes(p: RequestParts, q: Request) -> bool {
    &&& q.method@ == decode_utf8(p.0.0)
    &&& q.uri@ == decode_uri(p.0.1)
    &&& version_of(p.0.2, p.0.3) == Some(q.version)
    &&& q.headers@ == decode_headers(p.1)
    &&& q.body@ == p.2
}

/// Every text field of the response is valid UTF-8.
pub open spec fn valid_response(p: ResponseParts) -> bool {
    valid_utf8(p.0.3) && valid_headers(p.1)
}

/// `x` is the response `p` decoded.
pub open spec fn response_decodes(p: ResponseParts, x: Response) -> bool {
    &&& version_of(p.0.0, p.0.1) == Some(x.version)
    &&& x.status_code as int == code_value(p.0.2)
    &&& x.reason@ == decode_utf8(p.0.3)
    &&& x.headers@ == decode_headers(p.1)
    &&& x.body@ == p.2
}

/// The first field of a request that is not valid UTF-8, in the order
/// method, URI, headers.
pub open spec fn request_error_field(p: RequestParts) -> Field {
    if !valid_utf8(p.0.0) {
        Field::Method
    } else if !valid_uri(p.0.1) {
        uri_error_field(p.0.1)
    } else {
        headers_error_field(p.1)
    }
}

/// The first field of a response that is not valid UTF-8, in the order
/// reason, headers.
pub open spec fn response_error_field(p: ResponseParts) -> Field {
    if !valid_utf8(p.0.3) {
        Field::Reason
    } else {
        headers_error_field(p.1)
    }
}

/// Why a tokenized request cannot be converted, if it cannot: a text field
/// that is not valid UTF-8 first, then an unknown version.
pub open spec fn request_error(p: RequestParts) -> Option<Error> {
    if !valid_request(p) {
        Some(Error::Utf8(request_error_field(p)))
    } else if version_of(p.0.2, p.0.3) is None {
        Some(Error::UnknownVersion)
    } else {
        None
    }
}

/// Why a tokenized response cannot be converted, if it cannot: a text field
/// that is not valid UTF-8 first, then an unknown version, then a status
/// code that is not three digits.
pub open spec fn response_error(p: ResponseParts) -> Option<Error> {
    if !valid_response(p) {
        Some(Error::Utf8(response_error_field(p)))
    } else if version_of(p.0.0, p.0.1) is None {
        Some(Error::UnknownVersion)
    } else if !status_code_ok(p.0.2) {
        Some(Error::StatusCode)
    } else {
        None
    }
}

impl Request {
    /// Converts a tokenized request: every text field must be valid UTF-8,
    /// and then the version known.
    pub fn parse(t: &RequestTokenizer) -> (r: Result<Request, Error>)
        ensures
            r is Ok <==> request_error(t@) is None,
            r matches Ok(q) ==> request_decodes(t@, q),
            r matches Err(e) ==> request_error(t@) == Some(e),
    {
        let method = match decode_field(t.method, Field::Method) {
            Ok(m) => m,
            Err(e) => return Err(e),
        };
        let uri = match Uri::parse(t.uri) {
            Ok(u) => u,
            Err(e) => return Err(e),
        };
        let headers = match Headers::parse(&t.headers) {
            Ok(h) => h,
            Err(e) => return Err(e),
        };
        let version = match parse_version(t.version_major, t.version_minor) {
            Ok(v) => v,
            Err(e) => return Err(e),
        };
        let body = slice_to_vec(t.body);
        Ok(Request { method, uri, version, headers, body })
    }

    pub fn version(&self) -> (r: &Version)
        ensures
            *r == self.version,
    {
        &self.version
    }

    pub fn headers(&self) -> (r: &Headers)
        ensures
            *r == self.headers,
    {
        &self.headers
    }

    pub fn headers_mut(&mut self) -> (r: &mut Headers)
        ensures
            *r == old(self).headers,
            *final(self) == (Request { headers: *final(r), ..*old(self) }),
    {
        &mut self.headers
    }

    pub fn body(&self) -> (r: &Vec<u8>)
        ensures
            *r == self.body,
    {
        &self.body
    }

    pub fn body_mut(&mut self) -> (r: &mut Vec<u8>)
        ensures
            *r == old(self).body,
            *final(self) == (Request { body: *final(r), ..*old(self) }),
    {
        &mut self.body
    }
}

impl Response {
    /// Converts a tokenized response: every text field must be valid UTF-8,
    /// then the version known, then the status code three digits.
    pub fn parse(t: &ResponseTokenizer) -> (r: Result<Response, Error>)
        ensures
            r is Ok <==> response_error(t@) is None,
            r matches Ok(x) ==> response_decodes(t@, x),
            r matches Err(e) ==> response_error(t@) == Some(e),
    {
        let reason = match decode_field(t.reason, Field::Reason) {
            Ok(m) => m,
            Err(e) => return Err(e),
        };
        let headers = match Headers::parse(&t.headers) {
            Ok(h) => h,
            Err(e) => return Err(e),
        };
        let version = match parse_version(t.version_major, t.version_minor) {
            Ok(v) => v,
            Err(e) => return Err(e),
        };
        let c = t.status_code;
        if c.len() != 3 || !(48 <= c[0] && c[0] <= 57) || !(48 <= c[1] && c[1] <= 57) || !(48
            <= c[2] && c[2] <= 57) {
            return Err(Error::StatusCode);
        }
        let status_code: u16 = (c[0] - 48) as u16 * 100 + (c[1] - 48) as u16 * 10 + (c[2]
            - 48) as u16;
        let body = slice_to_vec(t.body);
        Ok(Response { version, status_code, reason, headers, body })
    }

    pub fn version(&self) -> (r: &Version)
        ensures
            *r == self.version,
    {
        &self.version
    }

    pub fn headers(&self) -> (r: &Headers)
        ensures
            *r == self.headers,
    {
        &self.headers
    }

    pub fn headers_mut(&mut self) -> (r: &mut Headers)
        ensures
            *r == old(self).headers,
            *final(self) == (Response { headers: *final(r), ..*old(self) }),
    {
        &mut self.headers
    }

    pub fn body(&self) -> (r: &Vec<u8>)
        ensures
            *r == self.body,
    {
        &self.body
    }

    pub fn body_mut(&mut self) -> (r: &mut Vec<u8>)
        ensures
            *r == old(self).body,
            *final(self) == (Response { body: *final(r), ..*old(self) }),
    {
        &mut self.body
    }
}

/// A whole message: a request or a response.
#[derive(Debug, PartialEq, Eq, Clone)]
pub enum SipMessage {
    Request(Request),
    Response(Response),
}

/// What parsing the bytes `s` gives: the response reading where the
/// status-line grammar matches, else the request reading, else a
/// tokenize error; a reading that matches converts as its own conversion
/// says.
pub open spec fn message_outcome(s: Seq<u8>, r: Result<SipMessage, Error>) -> bool {
    match response_spec(s) {
        Some(p) => match response_error(p) {
            Some(e) => r == Err::<SipMessage, Error>(e),
            None => r matches Ok(SipMessage::Response(x)) && response_decodes(p, x),
        },
        None => match request_spec(s) {
            Some(p) => match request_error(p) {
                Some(e) => r == Err::<SipMessage, Error>(e),
                None => r matches Ok(SipMessage::Request(q)) && request_decodes(p, q),
            },
            None => r == Err::<SipMessage, Error>(Error::Tokenize(Production::Message)),
        },
    }
}

/// Declares the shared byte buffer type of the `bytes` crate.
#[verifier::external_type_specification]
#[verifier::external_body]
pub struct ExBytes(bytes::Bytes);

/// The bytes that a shared buffer holds.
pub uninterp spec fn shared_contents(b: bytes::Bytes) -> Seq<u8>;

/// Relies on `<bytes::Bytes as AsRef<[u8]>>::as_ref`: a view of the bytes
/// that the buffer holds.
#[verifier::external_body]
fn shared_slice(b: &bytes::Bytes) -> (r: &[u8])
    ensures
        r@ == shared_contents(*b),
{
    b.as_ref()
}

impl SipMessage {
    pub open spec fn spec_version(&self) -> Version {
        match self {
            SipMessage::Request(q) => q.version,
            SipMessage::Response(x) => x.version,
        }
    }

    pub open spec fn spec_headers(&self) -> Headers {
        match self {
            SipMessage::Request(q) => q.headers,
            SipMessage::Response(x) => x.headers,
        }
    }

    pub open spec fn spec_body(&self) -> Vec<u8> {
        match self {
            SipMessage::Request(q) => q.body,
            SipMessage::Response(x) => x.body,
        }
    }

    /// The same message with other headers.
    pub open spec fn with_headers(&self, h: Headers) -> SipMessage {
        match self {
            SipMessage::Request(q) => SipMessage::Request(Request { headers: h, ..*q }),
            SipMessage::Response(x) => SipMessage::Response(Response { headers: h, ..*x }),
        }
    }

    /// The same message with another body.
    pub open spec fn with_body(&self, b: Vec<u8>) -> SipMessage {
        match self {
            SipMessage::Request(q) => SipMessage::Request(Request { body: b, ..*q }),
            SipMessage::Response(x) => SipMessage::Response(Response { body: b, ..*x }),
        }
    }

    pub fn is_request(&self) -> (r: bool)
        ensures
            r == (self is Request),
    {
        matches!(self, SipMessage::Request(_))
    }

    pub fn is_response(&self) -> (r: bool)
        ensures
            r == (self is Response),
    {
        matches!(self, SipMessage::Response(_))
    }

    pub fn version(&self) -> (r: &Version)
        ensures
            *r == self.spec_version(),
    {
        match self {
            SipMessage::Request(q) => q.version(),
            SipMessage::Response(x) => x.version(),
        }
    }

    pub fn headers(&self) -> (r: &Headers)
        ensures
            *r == self.spec_headers(),
    {
        match self {
            SipMessage::Request(q) => q.headers(),
            SipMessage::Response(x) => x.headers(),
        }
    }

    pub fn headers_mut(&mut self) -> (r: &mut Headers)
        ensures
            *r == old(self).spec_headers(),
            *final(self) == old(self).with_headers(*final(r)),
    {
        match self {
            SipMessage::Request(q) => q.headers_mut(),
            SipMessage::Response(x) => x.headers_mut(),
        }
    }

    pub fn body(&self) -> (r: &Vec<u8>)
        ensures
            *r == self.spec_body(),
    {
        match self {
            SipMessage::Request(q) => q.body(),
            SipMessage::Response(x) => x.body(),
        }
    }

    pub fn body_mut(&mut self) -> (r: &mut Vec<u8>)
        ensures
            *r == old(self).spec_body(),
            *final(self) == old(self).with_body(*final(r)),
    {
        match self {
            SipMessage::Request(q) => q.body_mut(),
            SipMessage::Response(x) => x.body_mut(),
        }
    }

    /// Converts a tokenized message, variant for variant.
    pub fn from_tokenizer(t: &Tokenizer) -> (r: Result<SipMessage, Error>)
        ensures
            t matches Tokenizer::Request(q) ==> match r {
                Ok(SipMessage::Request(v)) => request_error(q@) is None && request_decodes(q@, v),
                Ok(SipMessage::Response(_)) => false,
                Err(e) => request_error(q@) == Some(e),
            },
            t matches Tokenizer::Response(x) ==> match r {
                Ok(SipMessage::Response(v)) => response_error(x@) is None && response_decodes(
                    x@,
                    v,
                ),
                Ok(SipMessage::Request(_)) => false,
                Err(e) => response_error(x@) == Some(e),
            },
    {
        match t {
            Tokenizer::Request(q) => match Request::parse(q) {
                Ok(v) => Ok(SipMessage::Request(v)),
                Err(e) => Err(e),
            },
            Tokenizer::Response(x) => match Response::parse(x) {
                Ok(v) => Ok(SipMessage::Response(v)),
                Err(e) => Err(e),
            },
        }
    }

    /// Tokenizes and converts a complete message.
    pub fn parse(bytes: &[u8]) -> (r: Result<SipMessage, Error>)
        ensures
            message_outcome(bytes@, r),
    {
        match Tokenizer::tokenize(bytes) {
            Ok((_, t)) => SipMessage::from_tokenizer(&t),
            Err(_) => Err(Error::Tokenize(Production::Message)),
        }
    }

    /// Tokenizes and converts a complete message held in a vector.
    pub fn parse_vec(bytes: Vec<u8>) -> (r: Result<SipMessage, Error>)
        ensures
            message_outcome(bytes@, r),
    {
        SipMessage::parse(bytes.as_slice())
    }

    /// Tokenizes and converts a complete message held as text.
    pub fn parse_str(text: &str) -> (r: Result<SipMessage, Error>)
        ensures
            message_outcome(encode_utf8(text@), r),
    {
        SipMessage::parse(text.as_bytes())
    }

    /// Tokenizes and converts a complete message held as owned text.
    pub fn parse_string(text: String) -> (r: Result<SipMessage, Error>)
        ensures
            message_outcome(encode_utf8(text@), r),
    {
        SipMessage::parse(text.as_str().as_bytes())
    }

    /// Tokenizes and converts a complete message held in a shared buffer.
    pub fn parse_shared(bytes: bytes::Bytes) -> (r: Result<SipMessage, Error>)
        ensures
            message_outcome(shared_contents(bytes), r),
    {
        SipMessage::parse(shared_slice(&bytes))
    }
}

} // verus!
