//! From a request fixture to the message that is sent.

use base64::Engine;
use vstd::prelude::*;
use crate::envoy::HeaderMap;
use crate::envoy::HeaderValue;
use crate::envoy::HeaderValueView;
use crate::envoy::HttpHeaders;
use crate::envoy::HttpHeadersView;
use crate::envoy::ProcessingRequest;
use crate::envoy::Request;
use crate::envoy::RequestView;
use crate::error::Error;

pub mod json;

verus! {

/// The header that a fixture header stands for: a value left out is empty.
pub open spec fn mapped_header_value(data: json::HeaderValueView) -> HeaderValueView {
    HeaderValueView {
        key: data.key,
        value: match data.value {
            Some(text) => text,
            None => Seq::empty(),
        },
        raw_value: match data.raw_value {
            Some(bytes) => bytes,
            None => Seq::empty(),
        },
    }
}

/// The header list that a fixture's header list stands for: header by
/// header, in order.
pub open spec fn mapped_header_map(data: Seq<json::HeaderValueView>) -> Seq<HeaderValueView> {
    data.map_values(|h: json::HeaderValueView| mapped_header_value(h))
}

/// The headers that a fixture's headers stand for. The header list is always
/// present, if only empty.
pub open spec fn mapped_http_headers(data: json::HttpHeadersView) -> HttpHeadersView {
    HttpHeadersView {
        headers: Some(mapped_header_map(data.headers)),
        end_of_stream: data.end_of_stream,
    }
}

/// The subject of the message that a fixture stands for, where it has one:
/// a fixture has to hold request headers or response headers, and not both.
pub open spec fn mapped_request(data: json::ProcessingRequestView) -> Option<RequestView> {
    match (data.request_headers, data.response_headers) {
        (Some(headers), None) => Some(RequestView::RequestHeaders(mapped_http_headers(headers))),
        (None, Some(headers)) => Some(RequestView::ResponseHeaders(mapped_http_headers(headers))),
        _ => None,
    }
}

impl json::ProcessingRequest {
    /// The message this fixture stands for.
    ///
    /// Fails if the fixture holds both request and response headers, or
    /// neither.
    pub fn try_into(self) -> (res: Result<ProcessingRequest, Error>)
        ensures
            match mapped_request(self@) {
                Some(request) => res matches Ok(message) && message@ == Some(request),
                None => res matches Err(
                    Error::ExactlyOneOfRequestHeadersOrResponseHeadersMustBePresent,
                ),
            },
    {
        match (self.request_headers, self.response_headers) {
            (Some(request_headers), None) => {
                let headers = map_http_headers(request_headers);
                Ok(ProcessingRequest { request: Some(Request::RequestHeaders(headers)) })
            },
            (None, Some(response_headers)) => {
                let headers = map_http_headers(response_headers);
                Ok(ProcessingRequest { request: Some(Request::ResponseHeaders(headers)) })
            },
            _ => Err(Error::ExactlyOneOfRequestHeadersOrResponseHeadersMustBePresent),
        }
    }
}

/// The headers a fixture's headers stand for.
pub fn map_http_headers(data: json::HttpHeaders) -> (res: HttpHeaders)
    ensures
        res@ == mapped_http_headers(data@),
{
    let headers = map_header_map(data.headers);
    let end_of_stream = data.end_of_stream;

    HttpHeaders { headers: Some(headers), end_of_stream }
}

/// The header list a fixture's header list stands for.
pub fn map_header_map(data: json::HeaderMap) -> (res: HeaderMap)
    ensures
        res@ == mapped_header_map(data@),
{
    let ghost all = data.headers@;
    let mut headers: Vec<HeaderValue> = Vec::with_capacity(data.headers.len());
    for header in it: data.headers
        invariant
            it.seq() == all,
            headers@.len() == it.index(),
            forall|k: int|
                0 <= k < it.index() ==> (#[trigger] headers@[k])@ == mapped_header_value(all[k]@),
    {
        headers.push(map_header_value(header));
    }
    let res = HeaderMap { headers };
    assert(res@ =~= mapped_header_map(data@));
    res
}

/// The header a fixture header stands for.
pub fn map_header_value(data: json::HeaderValue) -> (res: HeaderValue)
    ensures
        res@ == mapped_header_value(data@),
{
    let key = data.key;
    let value = match data.value {
        Some(text) => text,
        None => String::new(),
    };
    let raw_value = match data.raw_value {
        Some(bytes) => bytes,
        None => Vec::new(),
    };

    HeaderValue { key, value, raw_value }
}

/// What the standard base64 alphabet with padding decodes a text to, if it
/// decodes at all.
pub uninterp spec fn base64_standard_decoding(text: Seq<char>) -> Option<Seq<u8>>;

/// Decodes with `base64::engine::general_purpose::STANDARD` through
/// `base64::Engine::decode`, and puts a failure into words. The contract
/// claims that the outcome is a matter of the text alone: the bytes, or the
/// fact that there are none, are what [`base64_standard_decoding`] names.
/// Nothing is claimed of the wording of a failure.
#[verifier::external_body]
fn decode_standard(text: &str) -> (res: Result<Vec<u8>, String>)
    ensures
        match res {
            Ok(bytes) => base64_standard_decoding(text@) == Some(bytes@),
            Err(_) => base64_standard_decoding(text@) is None,
        },
{
    match base64::engine::general_purpose::STANDARD.decode(text) {
        Ok(bytes) => Ok(bytes),
        Err(error) => Err(error.to_string()),
    }
}

/// The binary value of a header from what decoding its text gave: the bytes
/// where there are any, else a fixture that cannot be read.
pub fn raw_value_from(decoded: Result<Vec<u8>, String>) -> (res: Result<Option<Vec<u8>>, Error>)
    ensures
        match decoded {
            Ok(bytes) => res == Ok::<Option<Vec<u8>>, Error>(Some(bytes)),
            Err(reason) => res == Err::<Option<Vec<u8>>, Error>(
                Error::FailedToParseRequestFixture(reason),
            ),
        },
{
    match decoded {
        Ok(bytes) => Ok(Some(bytes)),
        Err(reason) => Err(Error::FailedToParseRequestFixture(reason)),
    }
}

/// Reads the binary value of a fixture header, which is written in base64
/// (standard alphabet, padded).
///
/// A text that is not base64 makes the fixture unreadable.
pub fn decode_raw_value(text: &str) -> (res: Result<Option<Vec<u8>>, Error>)
    ensures
        match base64_standard_decoding(text@) {
            Some(bytes) => res matches Ok(Some(decoded)) && decoded@ == bytes,
            None => res matches Err(Error::FailedToParseRequestFixture(_)),
        },
{
    raw_value_from(decode_standard(text))
}

} // verus!
