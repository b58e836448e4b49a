//! The unit of work a load test repeats.

use std::sync::Arc;
use vstd::prelude::*;
use crate::envoy::ProcessingRequest;
use crate::envoy::RequestView;
use crate::error::Error;
use crate::sample_requests::request_headers;
use crate::sample_requests::response_headers;

verus! {

/// One reusable session with the service under test.
///
/// `run` performs exactly one unit of remote work and returns when that unit
/// is resolved or has failed. A loop starts a new invocation without waiting
/// for the ones before it, so an implementation has to allow several calls
/// at a time on one value.
pub trait Worker {
    /// One unit of work.
    fn run(&self) -> Result<(), Error>;
}

/// A worker behind a shared pointer is a worker: every holder of the pointer
/// works through the one session.
impl<W: Worker> Worker for Arc<W> {
    /// One unit of work of the worker behind the pointer: what comes back is
    /// what that worker's `run` gave.
    fn run(&self) -> (res: Result<(), Error>)
        ensures
            call_ensures(W::run, (&**self,), res),
    {
        (**self).run()
    }
}

/// Where one unit of work stands: what it is waiting for.
///
/// A unit of work is an exchange of two message pairs over one call: the
/// request headers go out and are answered, then the response headers go out
/// and are answered.
#[derive(Debug, Clone, Copy, PartialEq, Eq, Structural)]
pub enum Exchange {
    /// The request headers are being queued for sending.
    SendingRequestHeaders,
    /// The call is being opened.
    Calling,
    /// Waiting for the answer to the request headers.
    AwaitingFirstResponse,
    /// The response headers are being queued for sending.
    SendingResponseHeaders,
    /// Waiting for the answer to the response headers.
    AwaitingSecondResponse,
}

/// What a unit of work does next.
#[derive(Debug)]
pub enum Next {
    /// Queue this message for sending, then go on from the given state.
    Send(ProcessingRequest, Exchange),
    /// Open the call, then go on from the given state.
    Call(Exchange),
    /// Wait for the next message of the service, then go on from the given
    /// state.
    AwaitResponse(Exchange),
    /// The unit of work is resolved, well or not.
    Done(Result<(), Error>),
}

/// The first step of a unit of work: queue the sample request headers.
pub fn start() -> (first: (ProcessingRequest, Exchange))
    ensures
        first.0@ == Some(RequestView::RequestHeaders(request_headers::sample_http_headers())),
        first.1 == Exchange::SendingRequestHeaders,
{
    (request_headers::create_processing_request(), Exchange::SendingRequestHeaders)
}

/// The step that follows from how the step before it went: `outcome` is `Ok`
/// if what the exchange was waiting for happened (the message was queued, the
/// call was opened, an answer came), and else holds the reason.
///
/// A unit of work fails only at its beginning: if the request headers cannot
/// be queued, or if the call is refused. Once the call stands, a service that
/// closes the stream early, or no longer takes the response headers, has
/// resolved the unit of work.
pub fn advance(exchange: Exchange, outcome: Result<(), String>) -> (next: Next)
    ensures
        match (exchange, outcome) {
            (Exchange::SendingRequestHeaders, Ok(_)) => next == Next::Call(Exchange::Calling),
            (Exchange::SendingRequestHeaders, Err(reason)) => next == Next::Done(
                Err(Error::CannotSendInitialRequest(reason)),
            ),
            (Exchange::Calling, Ok(_)) => next == Next::AwaitResponse(
                Exchange::AwaitingFirstResponse,
            ),
            (Exchange::Calling, Err(reason)) => next == Next::Done(
                Err(Error::FailedToCallExtProc(reason)),
            ),
            (Exchange::AwaitingFirstResponse, Ok(_)) => next matches Next::Send(message, then)
                && then == Exchange::SendingResponseHeaders && message@ == Some(
                RequestView::ResponseHeaders(response_headers::sample_http_headers()),
            ),
            (Exchange::AwaitingFirstResponse, Err(_)) => next == Next::Done(Ok(())),
            (Exchange::SendingResponseHeaders, Ok(_)) => next == Next::AwaitResponse(
                Exchange::AwaitingSecondResponse,
            ),
            (Exchange::SendingResponseHeaders, Err(_)) => next == Next::Done(Ok(())),
            (Exchange::AwaitingSecondResponse, _) => next == Next::Done(Ok(())),
        },
{
    match exchange {
        Exchange::SendingRequestHeaders => match outcome {
            Ok(_) => Next::Call(Exchange::Calling),
            Err(reason) => Next::Done(Err(Error::CannotSendInitialRequest(reason))),
        },
        Exchange::Calling => match outcome {
            Ok(_) => Next::AwaitResponse(Exchange::AwaitingFirstResponse),
            Err(reason) => Next::Done(Err(Error::FailedToCallExtProc(reason))),
        },
        Exchange::AwaitingFirstResponse => match outcome {
            Ok(_) => Next::Send(
                response_headers::create_processing_request(),
                Exchange::SendingResponseHeaders,
            ),
            // The stream is closed: nothing more to do.
            Err(_) => Next::Done(Ok(())),
        },
        Exchange::SendingResponseHeaders => match outcome {
            Ok(_) => Next::AwaitResponse(Exchange::AwaitingSecondResponse),
            Err(_) => Next::Done(Ok(())),
        },
        Exchange::AwaitingSecondResponse => Next::Done(Ok(())),
    }
}

} // verus!
