//! Typed headers whose value is a list of URIs with parameters.
use crate::error::{Error, Production};
use crate::uri::{
    decode_list, list_error_field, list_spec, parse_uri_list, valid_list, EntryText, UriWithParams,
    UriWithParamsList, UriWithParamsListTokenizer,
};
use vstd::prelude::*;

verus! {

/// The `Route` header: the URIs in routing order.
#[derive(Debug, PartialEq, Eq, Clone)]
pub struct Route(pub UriWithParamsList);

impl View for Route {
    type V = Seq<EntryText>;

    open spec fn view(&self) -> Seq<EntryText> {
        self.0@
    }
}

impl From<UriWithParamsList> for Route {
    fn from(list: UriWithParamsList) -> (r: Route)
        ensures
            r@ == list@,
    {
        Route(list)
    }
}

impl vstd::std_specs::convert::FromSpecImpl<UriWithParamsList> for Route {
    open spec fn obeys_from_spec() -> bool {
        true
    }

    open spec fn from_spec(list: UriWithParamsList) -> Route {
        Route(list)
    }
}

impl Route {
    /// The URIs with their parameters, in routing order.
    pub fn uris(&self) -> (r: &[UriWithParams])
        ensures
            r@ == self.0.0@,
    {
        self.0.uris()
    }

    /// Converts a tokenized header value.
    pub fn from_tokenizer(t: &UriWithParamsListTokenizer) -> (r: Result<Route, Error>)
        ensures
            r is Ok <==> valid_list(t@),
            r matches Ok(v) ==> v@ == decode_list(t@),
            r matches Err(e) ==> e == Error::Utf8(list_error_field(t@)),
    {
        match UriWithParamsList::parse(t) {
            Ok(l) => Ok(Route(l)),
            Err(e) => Err(e),
        }
    }

    /// Tokenizes and converts a header value.
    pub fn parse(value: &[u8]) -> (r: Result<Route, Error>)
        ensures
            r is Ok <==> (list_spec(value@) matches Some(l) && valid_list(l)),
            r matches Ok(v) ==> list_spec(value@) matches Some(l) && v@ == decode_list(l),
            r matches Err(e) ==> e == match list_spec(value@) {
                Some(l) => Error::Utf8(list_error_field(l)),
                None => Error::Tokenize(Production::UriList),
            },
    {
        match parse_uri_list(value) {
            Ok(l) => Ok(Route(l)),
            Err(e) => Err(e),
        }
    }
}

/// The `Error-Info` header: URIs that point at more detail on an error.
#[derive(Debug, PartialEq, Eq, Clone)]
pub struct ErrorInfo(pub UriWithParamsList);

impl View for ErrorInfo {
    type V = Seq<EntryText>;

    open spec fn view(&self) -> Seq<EntryText> {
        self.0@
    }
}

impl From<UriWithParamsList> for ErrorInfo {
    fn from(list: UriWithParamsList) -> (r: ErrorInfo)
        ensures
            r@ == list@,
    {
        ErrorInfo(list)
    }
}

impl vstd::std_specs::convert::FromSpecImpl<UriWithParamsList> for ErrorInfo {
    open spec fn obeys_from_spec() -> bool {
        true
    }

    open spec fn from_spec(list: UriWithParamsList) -> ErrorInfo {
        ErrorInfo(list)
    }
}

impl ErrorInfo {
    /// Converts a tokenized header value.
    pub fn from_tokenizer(t: &UriWithParamsListTokenizer) -> (r: Result<ErrorInfo, Error>)
        ensures
            r is Ok <==> valid_list(t@),
            r matches Ok(v) ==> v@ == decode_list(t@),
            r matches Err(e) ==> e == Error::Utf8(list_error_field(t@)),
    {
        match UriWithParamsList::parse(t) {
            Ok(l) => Ok(ErrorInfo(l)),
            Err(e) => Err(e),
        }
    }

    /// Tokenizes and converts a header value.
    pub fn parse(value: &[u8]) -> (r: Result<ErrorInfo, Error>)
        ensures
            r is Ok <==> (list_spec(value@) matches Some(l) && valid_list(l)),
            r matches Ok(v) ==> list_spec(value@) matches Some(l) && v@ == decode_list(l),
            r matches Err(e) ==> e == match list_spec(value@) {
                Some(l) => Error::Utf8(list_error_field(l)),
                None => Error::Tokenize(Production::UriList),
            },
    {
        match parse_uri_list(value) {
            Ok(l) => Ok(ErrorInfo(l)),
            Err(e) => Err(e),
        }
    }
}

} // verus!
