//! The second message of a unit of work: sample response headers.

use vstd::prelude::*;
use crate::envoy::HeaderMap;
use crate::envoy::HeaderValue;
use crate::envoy::HeaderValueView;
use crate::envoy::HttpHeaders;
use crate::envoy::HttpHeadersView;
use crate::envoy::ProcessingRequest;
use crate::envoy::Request;
use crate::envoy::RequestView;

verus! {

/// The one sample header: named `test`, with no value of either kind.
pub open spec fn sample_header_value() -> HeaderValueView {
    HeaderValueView { key: "test"@, value: Seq::empty(), raw_value: Seq::empty() }
}

/// The sample headers: the one sample header, and the stream goes on.
pub open spec fn sample_http_headers() -> HttpHeadersView {
    HttpHeadersView { headers: Some(seq![sample_header_value()]), end_of_stream: false }
}

/// A message that carries the sample headers as response headers.
pub fn create_processing_request() -> (message: ProcessingRequest)
    ensures
        message@ == Some(RequestView::ResponseHeaders(sample_http_headers())),
{
    ProcessingRequest { request: Some(Request::ResponseHeaders(create_http_headers())) }
}

/// The sample headers.
pub fn create_http_headers() -> (headers: HttpHeaders)
    ensures
        headers@ == sample_http_headers(),
{
    HttpHeaders { headers: Some(create_header_map()), end_of_stream: false }
}

/// The sample header list: one header.
pub fn create_header_map() -> (map: HeaderMap)
    ensures
        map@ == seq![sample_header_value()],
{
    let mut headers: Vec<HeaderValue> = Vec::new();
    headers.push(create_header_value());
    let map = HeaderMap { headers };
    assert(map@ =~= seq![sample_header_value()]);
    map
}

/// The sample header.
pub fn create_header_value() -> (header: HeaderValue)
    ensures
        header@ == sample_header_value(),
{
    HeaderValue { key: "test".to_owned(), value: String::new(), raw_value: Vec::new() }
}

} // verus!
