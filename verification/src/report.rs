//! The latency report of one rate level: a JSON array of nanosecond counts,
//! compressed.

use vstd::prelude::*;
use crate::error::Error;

verus! {

/// The compression level reports are written with: the compressor's default.
pub const COMPRESSION_LEVEL: i32 = 0;

/// The decimal digits of a number, as ASCII, most significant first.
pub open spec fn decimal_digits(n: nat) -> Seq<u8>
    decreases n,
{
    if n < 10 {
        seq![(48 + n) as u8]
    } else {
        decimal_digits(n / 10).push((48 + n % 10) as u8)
    }
}

/// The latencies in decimal, separated by commas.
pub open spec fn joined_numbers(durations: Seq<u128>) -> Seq<u8>
    decreases durations.len(),
{
    if durations.len() == 0 {
        Seq::empty()
    } else if durations.len() == 1 {
        decimal_digits(durations[0] as nat)
    } else {
        joined_numbers(durations.drop_last()) + seq![44u8] + decimal_digits(
            durations.last() as nat,
        )
    }
}

/// The report before compression: the latencies as a JSON array, in the
/// order given, without any white space.
pub open spec fn report_body(durations: Seq<u128>) -> Seq<u8> {
    seq![91u8] + joined_numbers(durations) + seq![93u8]
}

/// The name of the report file of a level, over the digits of its rate.
pub open spec fn report_name(rate_digits: Seq<char>) -> Seq<char> {
    "durations_"@ + rate_digits + ".json.zst"@
}

/// The decimal digits of a number as text.
pub open spec fn decimal_text(n: nat) -> Seq<char> {
    decimal_digits(n).map_values(|digit: u8| digit as char)
}

/// Appends the decimal digits of `n`.
fn push_decimal(out: &mut Vec<u8>, n: u128)
    ensures
        final(out)@ == old(out)@ + decimal_digits(n as nat),
    decreases n,
{
    if n >= 10 {
        push_decimal(out, n / 10);
    }
    let digit: u8 = (n % 10) as u8;
    out.push(48 + digit);
    assert(out@ =~= old(out)@ + decimal_digits(n as nat));
}

/// Writes the latencies of a level down as a JSON array of nanosecond
/// counts.
pub fn render_report(durations: &Vec<u128>) -> (bytes: Vec<u8>)
    ensures
        bytes@ == report_body(durations@),
{
    let mut out: Vec<u8> = Vec::new();
    out.push(91u8);

    let mut has_previous_value: bool = false;
    let mut i: usize = 0;
    while i < durations.len()
        invariant
            i <= durations@.len(),
            has_previous_value == (i > 0),
            out@ == seq![91u8] + joined_numbers(durations@.take(i as int)),
        decreases durations@.len() - i,
    {
        proof {
            assert(durations@.take(i + 1).drop_last() =~= durations@.take(i as int));
            assert(durations@.take(i + 1).last() == durations@[i as int]);
        }
        if has_previous_value {
            out.push(44u8);
        }
        push_decimal(&mut out, durations[i]);
        has_previous_value = true;
        i = i + 1;
        assert(out@ =~= seq![91u8] + joined_numbers(durations@.take(i as int)));
    }
    proof {
        assert(durations@.take(i as int) =~= durations@);
    }
    out.push(93u8);
    assert(out@ =~= report_body(durations@));
    out
}

/// Formats a number with the standard library's `ToString` for `u64`. The
/// contract claims what its documentation says of integers: the decimal
/// digits, most significant first, without sign, padding or separators.
#[verifier::external_body]
fn number_text(n: u64) -> (text: String)
    ensures
        text@ == decimal_text(n as nat),
{
    n.to_string()
}

/// The name of the file that holds the report of the level run at
/// `target_throughput` requests per second.
pub fn report_file_name(target_throughput: u64) -> (name: String)
    ensures
        name@ == report_name(decimal_text(target_throughput as nat)),
{
    let mut name: String = "durations_".to_owned();
    let digits: String = number_text(target_throughput);
    name.append(digits.as_str());
    name.append(".json.zst");
    name
}

/// What compressing `data` at `level` into one zstd frame gives: the frame,
/// or nothing where the compressor refuses.
pub uninterp spec fn zstd_frame(data: Seq<u8>, level: int) -> Option<Seq<u8>>;

/// Compresses with `zstd::stream::encode_all`, and puts a failure into
/// words. The contract claims that the outcome is a matter of the data and
/// the level alone: the frame, or the fact that there is none, is what
/// [`zstd_frame`] names. That holds of the compressor as it is called here,
/// on one thread and without a dictionary, and leaves aside a machine that
/// runs out of memory. Nothing is claimed of what a frame looks like, nor of
/// the wording of a failure.
#[verifier::external_body]
fn zstd_encode(data: &[u8], level: i32) -> (res: Result<Vec<u8>, String>)
    ensures
        match res {
            Ok(frame) => zstd_frame(data@, level as int) == Some(frame@),
            Err(_) => zstd_frame(data@, level as int) is None,
        },
{
    match zstd::stream::encode_all(data, level) {
        Ok(frame) => Ok(frame),
        Err(error) => Err(error.to_string()),
    }
}

/// The compressed report from what the compressor gave: its frame as it is,
/// or a report that could not be written.
pub fn compressed_from(outcome: Result<Vec<u8>, String>) -> (res: Result<Vec<u8>, Error>)
    ensures
        match outcome {
            Ok(frame) => res == Ok::<Vec<u8>, Error>(frame),
            Err(reason) => res == Err::<Vec<u8>, Error>(Error::WriteReport(reason)),
        },
{
    match outcome {
        Ok(frame) => Ok(frame),
        Err(reason) => Err(Error::WriteReport(reason)),
    }
}

/// The content of the report file of a level: its latencies as a JSON array,
/// compressed at [`COMPRESSION_LEVEL`] into one zstd frame.
///
/// What is compressed is exactly what [`render_report`] gives, and what comes
/// back is the compressor's frame for it. Where the compressor refuses, the
/// report cannot be written.
pub fn write(durations: &Vec<u128>) -> (res: Result<Vec<u8>, Error>)
    ensures
        match zstd_frame(report_body(durations@), COMPRESSION_LEVEL as int) {
            Some(frame) => res matches Ok(bytes) && bytes@ == frame,
            None => res matches Err(Error::WriteReport(_)),
        },
{
    let body: Vec<u8> = render_report(durations);
    compressed_from(zstd_encode(body.as_slice(), COMPRESSION_LEVEL))
}

} // verus!
