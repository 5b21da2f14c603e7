use rsip::auth::{Auth, Mismatch, Tokenizer as AuthTokenizer};
use rsip::error::{Error, Field, Production};
use rsip::expires::Expires;
use rsip::headers::{ErrorInfo, Route};
use rsip::message::{ResponseTokenizer, Tokenizer};
use rsip::scan::{find_pattern, position_of_either, split_all};
use rsip::sip_message::{Header, Headers, Response, SipMessage, Version};
use rsip::uri::{
    parse_uri_list, Param, ParamTokenizer, Uri, UriTokenizer, UriWithParamsListTokenizer,
};

fn auth_of(input: &[u8]) -> (Vec<u8>, Auth) {
    let (rem, t) = AuthTokenizer::tokenize(input).expect("authority");
    (rem.to_vec(), Auth::parse(t).expect("utf-8"))
}

#[test]
fn authority_without_password() {
    let (rem, auth) = auth_of(b"user@host");
    assert_eq!(rem, b"host".to_vec());
    assert_eq!(auth.username, "user");
    assert_eq!(auth.password, None);
}

#[test]
fn authority_with_password() {
    let (rem, auth) = auth_of(b"user:pass@host");
    assert_eq!(rem, b"host".to_vec());
    assert_eq!(auth.username, "user");
    assert_eq!(auth.password, Some("pass".to_string()));
}

#[test]
fn authority_with_empty_password() {
    let (_, auth) = auth_of(b"user:@host");
    assert_eq!(auth.username, "user");
    assert_eq!(auth.password, Some(String::new()));
}

#[test]
fn authority_tokenizer_borrows_ranges() {
    let input = b"alice:secret@example.com";
    let (rem, t) = AuthTokenizer::tokenize(input).unwrap();
    assert_eq!(t.username, b"alice");
    assert_eq!(t.password, Some(&b"secret"[..]));
    assert_eq!(rem, b"example.com");
}

#[test]
fn authority_stops_at_dot() {
    assert_eq!(AuthTokenizer::tokenize(b"host.domain"), Err(Mismatch {}));
    assert_eq!(AuthTokenizer::tokenize(b"a.b@host"), Err(Mismatch {}));
    assert_eq!(AuthTokenizer::tokenize(b"nohost"), Err(Mismatch {}));
}

#[test]
fn authority_invalid_utf8() {
    let t = AuthTokenizer { username: &[0xff, 0xfe], password: None };
    assert_eq!(Auth::parse(t), Err(Error::Utf8(Field::Username)));
    let t = AuthTokenizer { username: b"user", password: Some(&[0xc3]) };
    assert_eq!(Auth::parse(t), Err(Error::Utf8(Field::Password)));
}

#[test]
fn status_line_is_response() {
    let (rem, t) = Tokenizer::tokenize(b"SIP/2.0 200 OK").unwrap();
    assert!(rem.is_empty());
    assert!(matches!(t, Tokenizer::Response(_)));
}

#[test]
fn request_line_is_request() {
    let (rem, t) = Tokenizer::tokenize(b"INVITE sip:bob@biloxi.com SIP/2.0").unwrap();
    assert!(rem.is_empty());
    match t {
        Tokenizer::Request(r) => {
            assert_eq!(r.method, b"INVITE");
            assert_eq!(r.uri.scheme, b"sip");
            assert_eq!(r.uri.host, b"biloxi.com");
        }
        Tokenizer::Response(_) => panic!("expected a request"),
    }
}

#[test]
fn neither_start_line_fails() {
    assert!(Tokenizer::tokenize(b"hello world").is_err());
    assert_eq!(SipMessage::parse(b"hello"), Err(Error::Tokenize(Production::Message)));
}

#[test]
fn full_response_parses() {
    let text = "SIP/2.0 180 Ringing\r\nVia: SIP/2.0/UDP host\r\nCSeq:  1 INVITE\r\n\r\nbody";
    let msg = SipMessage::parse_str(text).unwrap();
    assert!(msg.is_response());
    assert!(!msg.is_request());
    assert_eq!(*msg.version(), Version::V2);
    assert_eq!(msg.body(), &b"body".to_vec());
    let hs = &msg.headers().0;
    assert_eq!(hs.len(), 2);
    assert_eq!(hs[0].name, "Via");
    assert_eq!(hs[0].value, "SIP/2.0/UDP host");
    assert_eq!(hs[1].name, "CSeq");
    assert_eq!(hs[1].value, "1 INVITE");
    match msg {
        SipMessage::Response(r) => {
            assert_eq!(r.status_code, 180);
            assert_eq!(r.reason, "Ringing");
        }
        SipMessage::Request(_) => panic!("expected a response"),
    }
}

#[test]
fn full_request_parses() {
    let text = "REGISTER sip:alice:pw@atlanta.com SIP/1.0\r\nTo: alice\r\n".to_string();
    let msg = SipMessage::parse_string(text).unwrap();
    assert!(msg.is_request());
    assert_eq!(*msg.version(), Version::V1);
    assert!(msg.body().is_empty());
    match msg {
        SipMessage::Request(r) => {
            assert_eq!(r.method, "REGISTER");
            let auth = r.uri.auth.unwrap();
            assert_eq!(auth.username, "alice");
            assert_eq!(auth.password, Some("pw".to_string()));
            assert_eq!(r.uri.host, "atlanta.com");
            assert_eq!(r.headers.0, vec![Header { name: "To".into(), value: "alice".into() }]);
        }
        SipMessage::Response(_) => panic!("expected a request"),
    }
}

#[test]
fn message_entry_points_agree() {
    let text = "SIP/2.0 404 Not Found\r\n\r\n";
    let a = SipMessage::parse(text.as_bytes()).unwrap();
    let b = SipMessage::parse_vec(text.as_bytes().to_vec()).unwrap();
    let c = SipMessage::parse_shared(bytes::Bytes::from(text.as_bytes().to_vec())).unwrap();
    assert_eq!(a, b);
    assert_eq!(a, c);
}

#[test]
fn unknown_version_is_reported() {
    assert_eq!(SipMessage::parse(b"SIP/3.0 200 OK"), Err(Error::UnknownVersion));
}

#[test]
fn invalid_utf8_in_message_fails() {
    let mut bytes = b"SIP/2.0 200 ".to_vec();
    bytes.push(0xff);
    assert_eq!(SipMessage::parse(&bytes), Err(Error::Utf8(Field::Reason)));
}

#[test]
fn message_accessors_mutate() {
    let mut msg = SipMessage::parse(b"SIP/2.0 200 OK").unwrap();
    msg.body_mut().extend_from_slice(b"xyz");
    msg.headers_mut().0.push(Header { name: "A".into(), value: "b".into() });
    assert_eq!(msg.body(), &b"xyz".to_vec());
    assert_eq!(msg.headers(), &Headers(vec![Header { name: "A".into(), value: "b".into() }]));
}

#[test]
fn uri_list_keeps_order_and_params() {
    let list = parse_uri_list(b"sip:a@x.com;q=1,sip:b@y.com").unwrap();
    let uris = list.uris();
    assert_eq!(uris.len(), 2);
    assert_eq!(uris[0].uri.auth.as_ref().unwrap().username, "a");
    assert_eq!(uris[0].uri.host, "x.com");
    assert_eq!(uris[0].params.len(), 1);
    assert_eq!(uris[0].params[0].name, "q");
    assert_eq!(uris[0].params[0].value, Some("1".to_string()));
    assert_eq!(uris[1].uri.auth.as_ref().unwrap().username, "b");
    assert_eq!(uris[1].uri.host, "y.com");
    assert!(uris[1].params.is_empty());
}

#[test]
fn route_keeps_routing_order() {
    let route = Route::parse(b"sip:p1.example.com;lr,sip:p2.example.com,sip:p3.example.com").unwrap();
    let hosts: Vec<&str> = route.uris().iter().map(|u| u.uri.host.as_str()).collect();
    assert_eq!(hosts, vec!["p1.example.com", "p2.example.com", "p3.example.com"]);
    assert_eq!(route.uris()[0].params[0].value, None);
    assert!(route.uris()[0].uri.auth.is_none());
}

#[test]
fn list_fails_as_a_whole() {
    assert_eq!(
        ErrorInfo::parse(b"sip:a@x.com,nocolon"),
        Err(Error::Tokenize(Production::UriList))
    );
    let bad = [b's', b':', 0xff];
    let t = UriWithParamsListTokenizer::tokenize(&bad).unwrap();
    assert_eq!(Route::from_tokenizer(&t), Err(Error::Utf8(Field::Host)));
}

#[test]
fn error_info_from_list() {
    let list = parse_uri_list(b"http://wwww.example.com/alice/").unwrap();
    let info = ErrorInfo::from(list.clone());
    assert_eq!(info.0, list);
    assert_eq!(list.uris()[0].uri.scheme, "http");
    assert_eq!(list.uris()[0].uri.host, "//wwww.example.com/alice/");
}

#[test]
fn uri_without_authority() {
    let t = UriTokenizer::tokenize(b"sip:biloxi.com").unwrap();
    assert!(t.auth.is_none());
    assert_eq!(t.host, b"biloxi.com");
}

#[test]
fn expires_reads_seconds_on_demand() {
    assert_eq!(Expires::new("3600".to_string()).seconds(), Ok(3600));
    let e = Expires::new("abc".to_string());
    assert_eq!(e.value(), "abc");
    assert_eq!(e.seconds(), Err(Error::ParseInt));
    assert_eq!(Expires::new("+7".to_string()).seconds(), Ok(7));
    assert_eq!(Expires::new("4294967296".to_string()).seconds(), Err(Error::ParseInt));
    assert_eq!(Expires::new(String::new()).seconds(), Err(Error::ParseInt));
}

#[test]
fn scanners() {
    assert_eq!(find_pattern(b"ab\r\ncd", b"\r\n"), Some(2));
    assert_eq!(find_pattern(b"abcd", b"\r\n"), None);
    assert_eq!(position_of_either(b"abc.d@", b'.', b'@'), 3);
    assert_eq!(position_of_either(b"abc", b'.', b'@'), 3);
    assert_eq!(split_all(b"a,,b", b','), vec![&b"a"[..], &b""[..], &b"b"[..]]);
}

#[test]
fn uri_errors_name_the_field() {
    let bad = [0xffu8];
    let t = UriTokenizer { scheme: &bad, auth: None, host: b"h" };
    assert_eq!(Uri::parse(t), Err(Error::Utf8(Field::Scheme)));
    let t = UriTokenizer {
        scheme: b"sip",
        auth: Some(AuthTokenizer { username: b"u", password: Some(&bad) }),
        host: b"h",
    };
    assert_eq!(Uri::parse(t), Err(Error::Utf8(Field::Password)));
    let p = ParamTokenizer::tokenize(b"lr");
    assert_eq!(Param::parse(p).unwrap().value, None);
    let p = ParamTokenizer { name: b"q", value: Some(&bad) };
    assert_eq!(Param::parse(p), Err(Error::Utf8(Field::ParamValue)));
}

#[test]
fn message_errors_name_the_field() {
    let mut req = vec![0xffu8];
    req.extend_from_slice(b" sip:bob@biloxi.com SIP/2.0");
    assert_eq!(SipMessage::parse(&req), Err(Error::Utf8(Field::Method)));
    let mut req = b"INVITE sip:bob@".to_vec();
    req.push(0xff);
    req.extend_from_slice(b".com SIP/2.0");
    assert_eq!(SipMessage::parse(&req), Err(Error::Utf8(Field::Host)));
    let mut resp = b"SIP/2.0 200 OK\r\nVia: a\r\nTo: ".to_vec();
    resp.push(0xff);
    assert_eq!(SipMessage::parse(&resp), Err(Error::Utf8(Field::HeaderValue)));
    let mut resp = b"SIP/2.0 200 OK\r\n".to_vec();
    resp.push(0xfe);
    resp.extend_from_slice(b": x");
    assert_eq!(SipMessage::parse_vec(resp), Err(Error::Utf8(Field::HeaderName)));
}

#[test]
fn tokenize_then_convert_passes_errors_on() {
    let mut req = b"OPTIONS sip:".to_vec();
    req.push(0xff);
    req.extend_from_slice(b"@h.com SIP/2.0");
    let (_, t) = Tokenizer::tokenize(&req).unwrap();
    assert_eq!(SipMessage::from_tokenizer(&t), Err(Error::Utf8(Field::Username)));
    assert_eq!(SipMessage::parse(&req), Err(Error::Utf8(Field::Username)));
}

#[test]
fn list_errors_name_the_field() {
    let mut list = b"sip:a@x.com;q=1,sip:b@y.com;q=".to_vec();
    list.push(0xff);
    assert_eq!(parse_uri_list(&list), Err(Error::Utf8(Field::ParamValue)));
    let t = UriWithParamsListTokenizer::tokenize(&list).unwrap();
    assert_eq!(Route::from_tokenizer(&t), Err(Error::Utf8(Field::ParamValue)));
    assert_eq!(ErrorInfo::from_tokenizer(&t), Err(Error::Utf8(Field::ParamValue)));
}

#[test]
fn decoding_error_comes_before_version() {
    let mut req = vec![0xffu8];
    req.extend_from_slice(b" sip:bob@biloxi.com SIP/3.0");
    assert_eq!(SipMessage::parse(&req), Err(Error::Utf8(Field::Method)));
    let mut resp = b"SIP/9.9 200 ".to_vec();
    resp.push(0xff);
    assert_eq!(SipMessage::parse(&resp), Err(Error::Utf8(Field::Reason)));
    assert_eq!(SipMessage::parse(b"SIP/9.9 200 OK"), Err(Error::UnknownVersion));
}

#[test]
fn hand_built_status_code_is_checked() {
    let t = ResponseTokenizer {
        version_major: b"2",
        version_minor: b"0",
        status_code: b"2x0",
        reason: b"OK",
        headers: vec![],
        body: b"",
    };
    assert_eq!(Response::parse(&t), Err(Error::StatusCode));
    let t = ResponseTokenizer { status_code: b"486", ..t };
    assert_eq!(Response::parse(&t).unwrap().status_code, 486);
}
