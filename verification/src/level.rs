//! One rate level: the pace it is run at, what its loops add up to, and
//! whether the generator kept up with it.

use vstd::prelude::*;
use vstd::arithmetic::div_mod::lemma_fundamental_div_mod;
use crate::error::Error;
use crate::report::report_body;
use crate::report::zstd_frame;
use crate::report::COMPRESSION_LEVEL;
use crate::scheduler::WorkerResult;

verus! {

/// The share of the planned requests, in percent, that a level must have
/// sent to count as reached.
pub const ACCEPTABLE_PERCENTAGE_OF_TARGET_THROUGHPUT: u64 = 95;

/// Nanoseconds in a second.
pub const NANOS_PER_SECOND: u128 = 1_000_000_000;

/// What the loops of one level add up to.
#[derive(Debug)]
pub struct LevelResult {
    /// The rate the level was run at, in requests per second.
    pub target_throughput: u64,
    /// The number of invocations dispatched, over all loops.
    pub request_sent: u64,
    /// The latencies of all loops, in nanoseconds. Their order means nothing.
    pub durations: Vec<u128>,
}

/// The mean, the lowest and the highest latency of a level, in nanoseconds.
#[derive(Debug)]
pub struct LatencySummary {
    pub avg_nanos: u128,
    pub min_nanos: u128,
    pub max_nanos: u128,
}

/// The number of invocations dispatched by all the loops together.
pub open spec fn total_sent(results: Seq<WorkerResult>) -> nat
    decreases results.len(),
{
    if results.len() == 0 {
        0
    } else {
        total_sent(results.drop_last()) + results.last().request_sent as nat
    }
}

/// The latencies of all the loops, loop after loop.
pub open spec fn all_durations(results: Seq<WorkerResult>) -> Seq<u128>
    decreases results.len(),
{
    if results.len() == 0 {
        Seq::empty()
    } else {
        all_durations(results.drop_last()) + results.last().durations@
    }
}

/// The sum of a list of latencies.
pub open spec fn sum_nanos(durations: Seq<u128>) -> nat
    decreases durations.len(),
{
    if durations.len() == 0 {
        0
    } else {
        sum_nanos(durations.drop_last()) + durations.last() as nat
    }
}

/// The number of requests a level plans to send: its rate times its length.
pub open spec fn planned_requests(test_duration_secs: int, throughput: int) -> int {
    test_duration_secs * throughput
}

/// The share of the planned requests that was sent, in whole percent.
pub open spec fn percent_of_target(request_sent: int, planned: int) -> int {
    100 * request_sent / planned
}

/// What the mean latency is taken over: the number of samples, or one if
/// there are more of them than 32 bits count.
pub open spec fn mean_divisor(samples: int) -> int {
    if samples <= u32::MAX {
        samples
    } else {
        1
    }
}

/// The time between two dispatches at a rate of `target_throughput` requests
/// per second, in nanoseconds: one second divided by the rate, rounded down.
///
/// The rate must be positive and fit 32 bits.
pub fn interval_for(target_throughput: u64) -> (nanos: u128)
    requires
        1 <= target_throughput <= u32::MAX,
    ensures
        nanos == NANOS_PER_SECOND as int / target_throughput as int,
{
    NANOS_PER_SECOND / (target_throughput as u128)
}

/// The number of requests a level of `test_duration_secs` seconds plans to
/// send at `throughput` requests per second.
pub fn estimated_request_count(test_duration_secs: u64, throughput: u64) -> (count: u64)
    requires
        planned_requests(test_duration_secs as int, throughput as int) <= u64::MAX,
    ensures
        count == planned_requests(test_duration_secs as int, throughput as int),
{
    test_duration_secs * throughput
}

/// Adds up what the loops of one level report: the dispatch counts are
/// summed, the latency lists joined.
///
/// The sum of the dispatch counts has to fit 64 bits.
pub fn aggregate(target_throughput: u64, results: Vec<WorkerResult>) -> (level: LevelResult)
    requires
        total_sent(results@) <= u64::MAX,
    ensures
        level.target_throughput == target_throughput,
        level.request_sent == total_sent(results@),
        level.durations@ == all_durations(results@),
{
    let ghost all = results@;
    let mut request_sent: u64 = 0;
    let mut durations: Vec<u128> = Vec::new();
    for result in it: results
        invariant
            it.seq() == all,
            total_sent(all) <= u64::MAX,
            request_sent == total_sent(all.take(it.index() as int)),
            durations@ == all_durations(all.take(it.index() as int)),
    {
        let ghost n = it.index() as int;
        proof {
            assert(all.take(n + 1).drop_last() =~= all.take(n));
            assert(all.take(n + 1).last() == all[n]);
            lemma_total_sent_of_prefix(all, n + 1);
        }
        let mut result = result;
        request_sent = request_sent + result.request_sent;
        durations.append(&mut result.durations);
    }
    proof {
        assert(all.take(all.len() as int) =~= all);
    }
    LevelResult { target_throughput, request_sent, durations }
}

/// Decides whether the generator kept up with a level.
///
/// A level that sent less than 95 percent of the requests it planned is a
/// failure of the generator, not of the service: the answer is then the
/// saturation error, with the target rate, the rate achieved and the
/// percentage. Otherwise the answer is the percentage.
///
/// The level must last at least a second and have a positive rate, and the
/// planned number of requests has to fit 64 bits.
pub fn check_level(level: &LevelResult, test_duration_secs: u64) -> (res: Result<u128, Error>)
    requires
        test_duration_secs > 0,
        level.target_throughput > 0,
        planned_requests(test_duration_secs as int, level.target_throughput as int) <= u64::MAX,
    ensures
        res is Err <==> percent_of_target(
            level.request_sent as int,
            planned_requests(test_duration_secs as int, level.target_throughput as int),
        ) < ACCEPTABLE_PERCENTAGE_OF_TARGET_THROUGHPUT,
        res matches Ok(percent) ==> percent == percent_of_target(
            level.request_sent as int,
            planned_requests(test_duration_secs as int, level.target_throughput as int),
        ),
        res matches Err(e) ==> e == Error::CouldNotReachTargetThroughput(
            level.target_throughput,
            (level.request_sent / test_duration_secs) as u64,
            percent_of_target(
                level.request_sent as int,
                planned_requests(test_duration_secs as int, level.target_throughput as int),
            ) as u64,
        ),
{
    let target_request_count: u64 = estimated_request_count(
        test_duration_secs,
        level.target_throughput,
    );
    assert(target_request_count > 0) by (nonlinear_arith)
        requires
            target_request_count == test_duration_secs * level.target_throughput,
            test_duration_secs > 0,
            level.target_throughput > 0,
    ;
    let actual_throughput: u64 = level.request_sent / test_duration_secs;
    let percent: u128 = 100 * (level.request_sent as u128) / (target_request_count as u128);
    if percent < ACCEPTABLE_PERCENTAGE_OF_TARGET_THROUGHPUT as u128 {
        return Err(
            Error::CouldNotReachTargetThroughput(
                level.target_throughput,
                actual_throughput,
                percent as u64,
            ),
        );
    }
    Ok(percent)
}

/// What is kept of a level: the share of the planned requests that was sent,
/// and the content of its report file.
///
/// A level is validated before anything of it is written. If the generator
/// did not keep up, the answer is the saturation error of [`check_level`],
/// and no report exists. Otherwise it is the percentage, with the latencies
/// as [`crate::report::write`] writes them down; a compressor that refuses
/// leaves a report that cannot be written.
///
/// The level must last at least a second and have a positive rate, and the
/// planned number of requests has to fit 64 bits.
pub fn level_report(level: &LevelResult, test_duration_secs: u64) -> (res: Result<
    (u128, Vec<u8>),
    Error,
>)
    requires
        test_duration_secs > 0,
        level.target_throughput > 0,
        planned_requests(test_duration_secs as int, level.target_throughput as int) <= u64::MAX,
    ensures
        ({
            let percent = percent_of_target(
                level.request_sent as int,
                planned_requests(test_duration_secs as int, level.target_throughput as int),
            );
            if percent < ACCEPTABLE_PERCENTAGE_OF_TARGET_THROUGHPUT {
                res == Err::<(u128, Vec<u8>), Error>(
                    Error::CouldNotReachTargetThroughput(
                        level.target_throughput,
                        (level.request_sent / test_duration_secs) as u64,
                        percent as u64,
                    ),
                )
            } else {
                match zstd_frame(report_body(level.durations@), COMPRESSION_LEVEL as int) {
                    Some(frame) => res matches Ok(kept) && kept.0 == percent && kept.1@ == frame,
                    None => res matches Err(Error::WriteReport(_)),
                }
            }
        }),
{
    match check_level(level, test_duration_secs) {
        Err(saturation) => Err(saturation),
        Ok(percent) => match crate::report::write(&level.durations) {
            Ok(bytes) => Ok((percent, bytes)),
            Err(failure) => Err(failure),
        },
    }
}

/// The mean, the lowest and the highest of a level's latencies.
///
/// There must be at least one latency, and their sum has to fit 128 bits.
pub fn summarize(durations: &Vec<u128>) -> (summary: LatencySummary)
    requires
        durations@.len() > 0,
        sum_nanos(durations@) <= u128::MAX,
    ensures
        summary.avg_nanos == sum_nanos(durations@) as int / mean_divisor(durations@.len() as int),
        durations@.contains(summary.min_nanos),
        durations@.contains(summary.max_nanos),
        forall|i: int|
            0 <= i < durations@.len() ==> summary.min_nanos <= #[trigger] durations@[i]
                <= summary.max_nanos,
{
    let count: usize = durations.len();
    let mut sum: u128 = 0;
    let mut min: u128 = durations[0];
    let mut max: u128 = durations[0];
    let mut i: usize = 0;
    while i < count
        invariant
            count == durations@.len(),
            count > 0,
            i <= count,
            sum_nanos(durations@) <= u128::MAX,
            sum == sum_nanos(durations@.take(i as int)),
            durations@.contains(min),
            durations@.contains(max),
            forall|k: int| 0 <= k < i ==> min <= #[trigger] durations@[k] <= max,
        decreases count - i,
    {
        proof {
            assert(durations@.take(i + 1).drop_last() =~= durations@.take(i as int));
            assert(durations@.take(i + 1).last() == durations@[i as int]);
            lemma_sum_nanos_of_prefix(durations@, i + 1);
        }
        let d: u128 = durations[i];
        sum = sum + d;
        if d < min {
            min = d;
        }
        if d > max {
            max = d;
        }
        i = i + 1;
    }
    proof {
        assert(durations@.take(count as int) =~= durations@);
    }
    let divisor: u128 = if count <= u32::MAX as usize {
        count as u128
    } else {
        1
    };
    LatencySummary { avg_nanos: sum / divisor, min_nanos: min, max_nanos: max }
}

/// The loops of a prefix never dispatched more than all the loops together.
proof fn lemma_total_sent_of_prefix(results: Seq<WorkerResult>, n: int)
    requires
        0 <= n <= results.len(),
    ensures
        total_sent(results.take(n)) <= total_sent(results),
    decreases results.len() - n,
{
    if n < results.len() {
        assert(results.take(n + 1).drop_last() =~= results.take(n));
        lemma_total_sent_of_prefix(results, n + 1);
    } else {
        assert(results.take(n) =~= results);
    }
}

/// The latencies of a prefix never sum to more than all of them.
proof fn lemma_sum_nanos_of_prefix(durations: Seq<u128>, n: int)
    requires
        0 <= n <= durations.len(),
    ensures
        sum_nanos(durations.take(n)) <= sum_nanos(durations),
    decreases durations.len() - n,
{
    if n < durations.len() {
        assert(durations.take(n + 1).drop_last() =~= durations.take(n));
        lemma_sum_nanos_of_prefix(durations, n + 1);
    } else {
        assert(durations.take(n) =~= durations);
    }
}

/// Saturation is detected exactly: the percentage of a level is below 95 if
/// and only if fewer than 95 in 100 of the planned requests were sent. A
/// generator that cannot keep up is never passed over in silence, and one
/// that keeps up is never accused.
pub proof fn lemma_saturation_detected(request_sent: int, planned: int)
    requires
        request_sent >= 0,
        planned > 0,
    ensures
        percent_of_target(request_sent, planned) < ACCEPTABLE_PERCENTAGE_OF_TARGET_THROUGHPUT
            <==> 100 * request_sent < 95 * planned,
{
    let x = 100 * request_sent;
    let q = x / planned;
    lemma_fundamental_div_mod(x, planned);
    assert(0 <= x % planned < planned);
    assert(x == planned * q + x % planned);
    if q < 95 {
        assert(planned * q <= planned * 94) by (nonlinear_arith)
            requires
                q <= 94,
                planned > 0,
        ;
    } else {
        assert(planned * q >= planned * 95) by (nonlinear_arith)
            requires
                q >= 95,
                planned > 0,
        ;
    }
}

/// Every loop's drain guarantee carries over to the level: if each loop
/// recorded a latency for each invocation it dispatched, the level holds as
/// many latencies as it counts dispatches.
pub proof fn lemma_level_has_no_leak(results: Seq<WorkerResult>)
    requires
        forall|i: int|
            0 <= i < results.len() ==> (#[trigger] results[i]).durations@.len()
                == results[i].request_sent,
    ensures
        all_durations(results).len() == total_sent(results),
    decreases results.len(),
{
    if results.len() > 0 {
        let front = results.drop_last();
        assert forall|i: int| 0 <= i < front.len() implies (#[trigger] front[i]).durations@.len()
            == front[i].request_sent by {
            assert(front[i] == results[i]);
        }
        lemma_level_has_no_leak(front);
        assert(results.last() == results[results.len() - 1]);
    }
}

} // verus!
