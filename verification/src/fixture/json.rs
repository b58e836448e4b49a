//! A request fixture as it is written down: the part of the message model
//! that a fixture file may fill in, with everything but the header name
//! optional.

use vstd::prelude::*;

verus! {

/// One header of a fixture.
#[derive(Debug)]
pub struct HeaderValue {
    pub key: String,
    pub value: Option<String>,
    pub raw_value: Option<Vec<u8>>,
}

/// The header list of a fixture.
#[derive(Debug)]
pub struct HeaderMap {
    pub headers: Vec<HeaderValue>,
}

/// The headers of a fixture's request or response.
#[derive(Debug)]
pub struct HttpHeaders {
    pub headers: HeaderMap,
    pub end_of_stream: bool,
}

/// A whole fixture: request headers or response headers.
#[derive(Debug)]
pub struct ProcessingRequest {
    pub request_headers: Option<HttpHeaders>,
    pub response_headers: Option<HttpHeaders>,
}

/// A fixture header as plain mathematics.
pub struct HeaderValueView {
    pub key: Seq<char>,
    pub value: Option<Seq<char>>,
    pub raw_value: Option<Seq<u8>>,
}

/// A fixture's set of headers as plain mathematics.
pub struct HttpHeadersView {
    pub headers: Seq<HeaderValueView>,
    pub end_of_stream: bool,
}

/// A whole fixture as plain mathematics.
pub struct ProcessingRequestView {
    pub request_headers: Option<HttpHeadersView>,
    pub response_headers: Option<HttpHeadersView>,
}

impl View for HeaderValue {
    type V = HeaderValueView;

    open spec fn view(&self) -> HeaderValueView {
        HeaderValueView {
            key: self.key@,
            value: match self.value {
                Some(text) => Some(text@),
                None => None,
            },
            raw_value: match self.raw_value {
                Some(bytes) => Some(bytes@),
                None => None,
            },
        }
    }
}

impl View for HeaderMap {
    type V = Seq<HeaderValueView>;

    open spec fn view(&self) -> Seq<HeaderValueView> {
        self.headers@.map_values(|h: HeaderValue| h@)
    }
}

impl View for HttpHeaders {
    type V = HttpHeadersView;

    open spec fn view(&self) -> HttpHeadersView {
        HttpHeadersView { headers: self.headers@, end_of_stream: self.end_of_stream }
    }
}

impl View for ProcessingRequest {
    type V = ProcessingRequestView;

    open spec fn view(&self) -> ProcessingRequestView {
        ProcessingRequestView {
            request_headers: match self.request_headers {
                Some(headers) => Some(headers@),
                None => None,
            },
            response_headers: match self.response_headers {
                Some(headers) => Some(headers@),
                None => None,
            },
        }
    }
}

} // verus!
