//! The failures a load test can end with, and the exit status of each.

use vstd::prelude::*;

verus! {

/// Why a load test stopped.
///
/// Variants that stand for a failure reported by the transport, the file
/// system or a parser carry that failure's message.
#[derive(Debug)]
pub enum Error {
    /// The transport endpoint could not be built from the target URI.
    FailedToCreateEndpoint(String),
    /// No connection to the endpoint could be established.
    FailedToConnectToEndpoint(String),
    /// The remote call was rejected or broke off.
    FailedToCallExtProc(String),
    /// The first request could not be queued for sending.
    CannotSendInitialRequest(String),
    /// The generator itself was saturated: target rate, achieved rate,
    /// percentage of the planned requests that were sent.
    CouldNotReachTargetThroughput(u64, u64, u64),
    /// The latency report could not be written.
    WriteReport(String),
    /// The expected number of requests of one loop does not fit the machine's
    /// word.
    EstimatedRequestCountTooLarge,
    /// The rate parameters describe more levels than a sweep may have.
    TooManyThroughputsToTest,
    /// The request fixture could not be opened.
    FailedToOpenRequestFixture(String),
    /// The request fixture is not valid JSON of the expected shape.
    FailedToParseRequestFixture(String),
    /// A fixture must hold request headers or response headers, not both and
    /// not neither.
    ExactlyOneOfRequestHeadersOrResponseHeadersMustBePresent,
    /// A scheduler needs at least one worker.
    ConcurrencyMustBeGreaterThanZero,
    /// A scheduler cannot count more workers than fit in 32 bits.
    ConcurrencyMustBeLessThanU32Max,
}

/// The process exit status that belongs to each failure.
pub open spec fn exit_code_of(e: Error) -> int {
    match e {
        Error::FailedToCreateEndpoint(_) => 1,
        Error::FailedToConnectToEndpoint(_) => 2,
        Error::FailedToCallExtProc(_) => 3,
        Error::CannotSendInitialRequest(_) => 4,
        Error::CouldNotReachTargetThroughput(_, _, _) => 5,
        Error::WriteReport(_) => 6,
        Error::EstimatedRequestCountTooLarge => 7,
        Error::TooManyThroughputsToTest => 8,
        Error::FailedToOpenRequestFixture(_) => 9,
        Error::FailedToParseRequestFixture(_) => 10,
        Error::ExactlyOneOfRequestHeadersOrResponseHeadersMustBePresent => 11,
        Error::ConcurrencyMustBeGreaterThanZero => 12,
        Error::ConcurrencyMustBeLessThanU32Max => 13,
    }
}

impl Error {
    /// The exit status for this failure; every category has its own, and none
    /// is zero.
    pub fn exit_code(&self) -> (code: i32)
        ensures
            code == exit_code_of(*self),
            1 <= code <= 13,
    {
        match self {
            Error::FailedToCreateEndpoint(_) => 1,
            Error::FailedToConnectToEndpoint(_) => 2,
            Error::FailedToCallExtProc(_) => 3,
            Error::CannotSendInitialRequest(_) => 4,
            Error::CouldNotReachTargetThroughput(_, _, _) => 5,
            Error::WriteReport(_) => 6,
            Error::EstimatedRequestCountTooLarge => 7,
            Error::TooManyThroughputsToTest => 8,
            Error::FailedToOpenRequestFixture(_) => 9,
            Error::FailedToParseRequestFixture(_) => 10,
            Error::ExactlyOneOfRequestHeadersOrResponseHeadersMustBePresent => 11,
            Error::ConcurrencyMustBeGreaterThanZero => 12,
            Error::ConcurrencyMustBeLessThanU32Max => 13,
        }
    }
}

} // verus!
