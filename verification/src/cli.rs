//! The settings of one load test, and the checks each of them has to pass.

use vstd::prelude::*;

verus! {

/// What a load test is run with.
#[derive(Debug)]
pub struct Cli {
    /// The URI of the service under test.
    pub uri: String,
    /// How long each rate level runs, in whole seconds; at least one.
    pub test_duration_secs: u64,
    /// The first rate (requests per second) of the sweep.
    pub start_throughput: u64,
    /// The bound no rate of the sweep may exceed.
    pub end_throughput: u64,
    /// The factor from one level to the next; one leaves the rate as it is.
    pub throughput_multiplier: u64,
    /// The number of requests per second added from one level to the next.
    pub throughput_step: u64,
    /// Where the reports go; the working directory if absent.
    pub result_directory: Option<String>,
}

/// Whether a character is one of the ten decimal digits.
pub open spec fn is_digit(c: char) -> bool {
    '0' <= c <= '9'
}

/// The number that a run of decimal digits stands for.
pub open spec fn digits_value(digits: Seq<char>) -> nat
    decreases digits.len(),
{
    if digits.len() == 0 {
        0
    } else {
        10 * digits_value(digits.drop_last()) + (digits.last() as nat - '0' as nat) as nat
    }
}

/// A text without the plus sign it may begin with.
pub open spec fn without_sign(text: Seq<char>) -> Seq<char> {
    if text.len() > 0 && text[0] == '+' {
        text.skip(1)
    } else {
        text
    }
}

/// The unsigned 64-bit number that a text stands for: an optional plus sign,
/// then at least one decimal digit and nothing else, and a value that fits.
pub open spec fn parsed_u64(text: Seq<char>) -> Option<u64> {
    let digits = without_sign(text);
    if digits.len() > 0 && (forall|i: int| 0 <= i < digits.len() ==> is_digit(#[trigger] digits[i]))
        && digits_value(digits) <= u64::MAX {
        Some(digits_value(digits) as u64)
    } else {
        None
    }
}

/// Parses with the standard library's `str::parse::<u64>`. The contract
/// claims what the documentation of `u64::from_str` says: the text is an
/// optional `+` followed by decimal digits only; an empty text, any other
/// character and a value beyond 64 bits are errors.
#[verifier::external_body]
fn parse_u64(text: &str) -> (number: Option<u64>)
    ensures
        number == parsed_u64(text@),
{
    text.parse::<u64>().ok()
}

/// A complaint about a value: what is wrong, then the value as it was given.
fn complaint(what: &str, given: &str) -> (message: String)
    ensures
        message@ == what@ + given@,
{
    let mut message: String = what.to_owned();
    message.append(given);
    message
}

/// Checks the length of each rate level: a whole number of seconds, and not
/// zero. A level of no length plans no request, and nothing can be measured
/// against that.
pub fn validate_test_duration_seconds(v: &str) -> (res: Result<u64, String>)
    ensures
        match parsed_u64(v@) {
            Some(seconds) => if seconds >= 1 {
                res == Ok::<u64, String>(seconds)
            } else {
                res matches Err(message) && message@
                    == "test duration must be strictly positive, got 0"@
            },
            None => res matches Err(message) && message@
                == "test duration must be a integer (seconds), got "@ + v@,
        },
{
    match parse_u64(v) {
        Some(seconds) => {
            if seconds < 1 {
                return Err("test duration must be strictly positive, got 0".to_owned());
            }
            Ok(seconds)
        },
        None => Err(complaint("test duration must be a integer (seconds), got ", v)),
    }
}

/// Checks the first rate of the sweep: a whole number of requests per
/// second, and not zero.
pub fn validate_start_throughput(v: &str) -> (res: Result<u64, String>)
    ensures
        match parsed_u64(v@) {
            Some(rate) => if rate >= 1 {
                res == Ok::<u64, String>(rate)
            } else {
                res matches Err(message) && message@
                    == "start throughput must be strictly positive, got 0"@
            },
            None => res matches Err(message) && message@
                == "start throughput must be a integer (requests per second), got "@ + v@,
        },
{
    match parse_u64(v) {
        Some(rate) => {
            if rate < 1 {
                return Err("start throughput must be strictly positive, got 0".to_owned());
            }
            Ok(rate)
        },
        None => Err(
            complaint("start throughput must be a integer (requests per second), got ", v),
        ),
    }
}

/// Checks the bound of the sweep: a whole number of requests per second, and
/// not zero.
pub fn validate_end_throughput(v: &str) -> (res: Result<u64, String>)
    ensures
        match parsed_u64(v@) {
            Some(rate) => if rate >= 1 {
                res == Ok::<u64, String>(rate)
            } else {
                res matches Err(message) && message@
                    == "end throughput must be strictly positive, got 0"@
            },
            None => res matches Err(message) && message@
                == "end throughput must be a integer (requests per second), got "@ + v@,
        },
{
    match parse_u64(v) {
        Some(rate) => {
            if rate < 1 {
                return Err("end throughput must be strictly positive, got 0".to_owned());
            }
            Ok(rate)
        },
        None => Err(complaint("end throughput must be a integer (requests per second), got ", v)),
    }
}

/// Checks the step of the sweep: a whole number of requests per second.
pub fn validate_throughput_step(v: &str) -> (res: Result<u64, String>)
    ensures
        match parsed_u64(v@) {
            Some(step) => res == Ok::<u64, String>(step),
            None => res matches Err(message) && message@
                == "throughput step must be a integer (requests per second per run), got "@ + v@,
        },
{
    match parse_u64(v) {
        Some(step) => Ok(step),
        None => Err(
            complaint("throughput step must be a integer (requests per second per run), got ", v),
        ),
    }
}

/// Checks the multiplier of the sweep: a whole number.
pub fn validate_throughput_multiplier(v: &str) -> (res: Result<u64, String>)
    ensures
        match parsed_u64(v@) {
            Some(multiplier) => res == Ok::<u64, String>(multiplier),
            None => res matches Err(message) && message@
                == "throughput multiplier must be a integer (multiplier per run), got "@ + v@,
        },
{
    match parse_u64(v) {
        Some(multiplier) => Ok(multiplier),
        None => Err(
            complaint("throughput multiplier must be a integer (multiplier per run), got ", v),
        ),
    }
}

/// Checks where the reports go. Any text is a path; `is_directory` says
/// whether a directory stands at it, which only the file system knows.
pub fn validate_result_directory(v: &str, is_directory: bool) -> (res: Result<String, String>)
    ensures
        is_directory ==> (res matches Ok(path) && path@ == v@),
        !is_directory ==> (res matches Err(message) && message@
            == "result directory is not a directory"@),
{
    if !is_directory {
        return Err("result directory is not a directory".to_owned());
    }
    Ok(v.to_owned())
}

} // verus!
