//! The messages sent to the service under test, as far as a load test fills
//! them in.

use vstd::prelude::*;

verus! {

/// One header: a name with a textual or a binary value.
#[derive(Debug, PartialEq, Eq)]
pub struct HeaderValue {
    pub key: String,
    pub value: String,
    pub raw_value: Vec<u8>,
}

/// A list of headers, in order.
#[derive(Debug, PartialEq, Eq)]
pub struct HeaderMap {
    pub headers: Vec<HeaderValue>,
}

/// The headers of a request or of a response.
#[derive(Debug, PartialEq, Eq)]
pub struct HttpHeaders {
    pub headers: Option<HeaderMap>,
    pub end_of_stream: bool,
}

/// What a processing request is about.
#[derive(Debug, PartialEq, Eq)]
pub enum Request {
    RequestHeaders(HttpHeaders),
    ResponseHeaders(HttpHeaders),
}

/// One message of the exchange with the service under test.
#[derive(Debug, PartialEq, Eq)]
pub struct ProcessingRequest {
    pub request: Option<Request>,
}

/// A header as plain mathematics.
pub struct HeaderValueView {
    pub key: Seq<char>,
    pub value: Seq<char>,
    pub raw_value: Seq<u8>,
}

/// A set of headers as plain mathematics.
pub struct HttpHeadersView {
    pub headers: Option<Seq<HeaderValueView>>,
    pub end_of_stream: bool,
}

/// The subject of a processing request as plain mathematics.
pub enum RequestView {
    RequestHeaders(HttpHeadersView),
    ResponseHeaders(HttpHeadersView),
}

impl View for HeaderValue {
    type V = HeaderValueView;

    open spec fn view(&self) -> HeaderValueView {
        HeaderValueView { key: self.key@, value: self.value@, raw_value: self.raw_value@ }
    }
}

impl View for HeaderMap {
    type V = Seq<HeaderValueView>;

    open spec fn view(&self) -> Seq<HeaderValueView> {
        self.headers@.map_values(|h: HeaderValue| h@)
    }
}

impl View for HttpHeaders {
    type V = HttpHeadersView;

    open spec fn view(&self) -> HttpHeadersView {
        HttpHeadersView {
            headers: match self.headers {
                Some(map) => Some(map@),
                None => None,
            },
            end_of_stream: self.end_of_stream,
        }
    }
}

impl View for Request {
    type V = RequestView;

    open spec fn view(&self) -> RequestView {
        match self {
            Request::RequestHeaders(headers) => RequestView::RequestHeaders(headers@),
            Request::ResponseHeaders(headers) => RequestView::ResponseHeaders(headers@),
        }
    }
}

impl View for ProcessingRequest {
    type V = Option<RequestView>;

    open spec fn view(&self) -> Option<RequestView> {
        match self.request {
            Some(request) => Some(request@),
            None => None,
        }
    }
}

} // verus!
