//! The sweep of target rates: which levels a test runs, in which order.

use vstd::prelude::*;
use crate::cli::Cli;
use crate::error::Error;

verus! {

/// The most levels one sweep may have.
pub const MAX_LEVELS: usize = 100;

/// The rate that follows `value`: scaled unless the multiplier is one, then
/// raised by the step.
pub open spec fn next_rate(value: int, multiplier: int, step: int) -> int {
    if multiplier != 1 {
        value * multiplier + step
    } else {
        value + step
    }
}

/// The rate of level `k` (counted from zero) of an unbounded sweep.
pub open spec fn rate_at(start: int, multiplier: int, step: int, k: nat) -> int
    decreases k,
{
    if k == 0 {
        start
    } else {
        next_rate(rate_at(start, multiplier, step, (k - 1) as nat), multiplier, step)
    }
}

/// The first `n` levels all stay within the bound `end`.
pub open spec fn levels_within(start: int, end: int, multiplier: int, step: int, n: nat) -> bool {
    forall|k: nat| k < n ==> #[trigger] rate_at(start, multiplier, step, k) <= end
}

/// `levels` is the sweep from `start` up to `end`: every level in order, up to
/// and without the first one that exceeds `end`.
pub open spec fn is_rate_sequence(
    levels: Seq<u64>,
    start: int,
    end: int,
    multiplier: int,
    step: int,
) -> bool {
    &&& levels_within(start, end, multiplier, step, levels.len())
    &&& rate_at(start, multiplier, step, levels.len()) > end
    &&& forall|k: int|
        0 <= k < levels.len() ==> #[trigger] levels[k] == rate_at(start, multiplier, step, k as nat)
}

/// Computes every rate the test runs at, lowest first.
///
/// The sweep starts at `start_throughput`; each further level is the one
/// before it times `throughput_multiplier` (unless that is one) plus
/// `throughput_step`; it ends before the first level above `end_throughput`.
/// A sweep of more than [`MAX_LEVELS`] levels is refused, which also covers
/// parameters under which the rate never grows.
pub fn get_all_throughputs(cli: &Cli) -> (res: Result<Vec<u64>, Error>)
    ensures
        res is Err <==> levels_within(
            cli.start_throughput as int,
            cli.end_throughput as int,
            cli.throughput_multiplier as int,
            cli.throughput_step as int,
            (MAX_LEVELS + 1) as nat,
        ),
        res matches Ok(levels) ==> levels@.len() <= MAX_LEVELS && is_rate_sequence(
            levels@,
            cli.start_throughput as int,
            cli.end_throughput as int,
            cli.throughput_multiplier as int,
            cli.throughput_step as int,
        ),
        res matches Err(e) ==> e is TooManyThroughputsToTest,
{
    let u0: u64 = cli.start_throughput;
    let b: u64 = cli.throughput_step;
    let a: u64 = cli.throughput_multiplier;
    let end: u64 = cli.end_throughput;

    let mut throughputs: Vec<u64> = Vec::new();
    let mut value: u64 = u0;
    // Set once the next level no longer fits in 64 bits, and so lies above
    // every possible bound.
    let mut beyond: bool = false;
    while !beyond && value <= end
        invariant
            u0 == cli.start_throughput,
            end == cli.end_throughput,
            a == cli.throughput_multiplier,
            b == cli.throughput_step,
            throughputs@.len() <= MAX_LEVELS,
            levels_within(u0 as int, end as int, a as int, b as int, throughputs@.len()),
            forall|k: int|
                0 <= k < throughputs@.len() ==> #[trigger] throughputs@[k] == rate_at(
                    u0 as int,
                    a as int,
                    b as int,
                    k as nat,
                ),
            !beyond ==> value == rate_at(u0 as int, a as int, b as int, throughputs@.len()),
            beyond ==> rate_at(u0 as int, a as int, b as int, throughputs@.len()) > end,
        decreases MAX_LEVELS - throughputs@.len(),
    {
        let ghost n = throughputs@.len();
        throughputs.push(value);
        assert(rate_at(u0 as int, a as int, b as int, (n + 1) as nat) == next_rate(
            rate_at(u0 as int, a as int, b as int, n),
            a as int,
            b as int,
        ));
        let scaled: Option<u64> = if a != 1 {
            value.checked_mul(a)
        } else {
            Some(value)
        };
        match scaled {
            Some(s) => match s.checked_add(b) {
                Some(next) => {
                    value = next;
                },
                None => {
                    beyond = true;
                },
            },
            None => {
                beyond = true;
            },
        }
        assert(levels_within(u0 as int, end as int, a as int, b as int, (n + 1) as nat)) by {
            assert forall|k: nat| k < n + 1 implies #[trigger] rate_at(
                u0 as int,
                a as int,
                b as int,
                k,
            ) <= end by {
                if k < n {
                } else {
                    assert(k == n);
                }
            }
        }
        if throughputs.len() > MAX_LEVELS {
            assert((n + 1) as nat == (MAX_LEVELS + 1) as nat);
            return Err(Error::TooManyThroughputsToTest);
        }
    }
    proof {
        let n = throughputs@.len();
        assert(rate_at(u0 as int, a as int, b as int, n) > end);
        assert(!levels_within(u0 as int, end as int, a as int, b as int, (MAX_LEVELS + 1) as nat));
    }
    Ok(throughputs)
}

/// With a multiplier of one, level `k` of a sweep is `start + k * step`.
pub proof fn lemma_unit_multiplier_level(start: int, step: int, k: nat)
    ensures
        rate_at(start, 1, step, k) == start + k * step,
    decreases k,
{
    if k > 0 {
        let j = (k - 1) as nat;
        lemma_unit_multiplier_level(start, step, j);
        assert(j * step + step == k * step) by (nonlinear_arith)
            requires
                j + 1 == k,
        ;
    } else {
        assert(k * step == 0) by (nonlinear_arith)
            requires
                k == 0,
        ;
    }
}

/// With a multiplier of one, the sweep is the arithmetic sequence `start`,
/// `start + step`, `start + 2 * step`, ... for as long as it stays within
/// `end`: every member has that form and is within the bound, and the member
/// that would follow the last is above it.
pub proof fn lemma_unit_multiplier_sequence(levels: Seq<u64>, start: int, end: int, step: int)
    requires
        is_rate_sequence(levels, start, end, 1, step),
    ensures
        forall|k: int|
            0 <= k < levels.len() ==> #[trigger] levels[k] == start + k * step && levels[k] <= end,
        start + levels.len() * step > end,
{
    assert forall|k: int| 0 <= k < levels.len() implies #[trigger] levels[k] == start + k * step
        && levels[k] <= end by {
        lemma_unit_multiplier_level(start, step, k as nat);
        assert(rate_at(start, 1, step, k as nat) <= end);
    }
    lemma_unit_multiplier_level(start, step, levels.len());
}

/// The sweep is a function of its four parameters: two sequences that both
/// are the sweep for the same parameters are the same sequence, level for
/// level and in length.
pub proof fn lemma_rate_sequence_unique(
    first: Seq<u64>,
    second: Seq<u64>,
    start: int,
    end: int,
    multiplier: int,
    step: int,
)
    requires
        is_rate_sequence(first, start, end, multiplier, step),
        is_rate_sequence(second, start, end, multiplier, step),
    ensures
        first == second,
{
    if first.len() < second.len() {
        assert(rate_at(start, multiplier, step, first.len()) <= end);
    }
    if second.len() < first.len() {
        assert(rate_at(start, multiplier, step, second.len()) <= end);
    }
    assert(first =~= second);
}

/// Parameters under which the first `MAX_LEVELS + 1` levels all stay within
/// the bound have no sweep of at most `MAX_LEVELS` levels.
pub proof fn lemma_too_many_levels_has_no_sequence(
    levels: Seq<u64>,
    start: int,
    end: int,
    multiplier: int,
    step: int,
)
    requires
        levels_within(start, end, multiplier, step, (MAX_LEVELS + 1) as nat),
        is_rate_sequence(levels, start, end, multiplier, step),
    ensures
        levels.len() > MAX_LEVELS,
{
    if levels.len() <= MAX_LEVELS {
        assert(rate_at(start, multiplier, step, levels.len()) <= end);
    }
}

/// From a positive start, with a multiplier of at least one, every level is
/// positive and no lower than the one before it; it is higher unless the
/// multiplier is one and the step zero.
pub proof fn lemma_rate_grows(start: int, multiplier: int, step: int, k: nat)
    requires
        start >= 1,
        multiplier >= 1,
        step >= 0,
    ensures
        rate_at(start, multiplier, step, k) >= 1,
        rate_at(start, multiplier, step, k) <= rate_at(start, multiplier, step, k + 1),
        multiplier > 1 || step > 0 ==> rate_at(start, multiplier, step, k) < rate_at(
            start,
            multiplier,
            step,
            k + 1,
        ),
    decreases k,
{
    if k > 0 {
        lemma_rate_grows(start, multiplier, step, (k - 1) as nat);
    }
    let v = rate_at(start, multiplier, step, k);
    assert(rate_at(start, multiplier, step, k + 1) == next_rate(v, multiplier, step));
    if multiplier != 1 {
        assert(v * multiplier >= 2 * v) by (nonlinear_arith)
            requires
                v >= 1,
                multiplier >= 2,
        ;
    }
}

/// A sweep from a positive start with a multiplier of at least one is strictly
/// increasing, and every level is positive and within the bound.
pub proof fn lemma_rate_sequence_strictly_increasing(
    levels: Seq<u64>,
    start: int,
    end: int,
    multiplier: int,
    step: int,
)
    requires
        start >= 1,
        multiplier >= 1,
        step >= 0,
        is_rate_sequence(levels, start, end, multiplier, step),
    ensures
        forall|i: int, j: int| 0 <= i < j < levels.len() ==> levels[i] < levels[j],
        forall|i: int| 0 <= i < levels.len() ==> 1 <= #[trigger] levels[i] <= end,
{
    if levels.len() > 0 {
        if multiplier == 1 && step == 0 {
            // The rate never changes, so the level after the last is the first.
            lemma_unit_multiplier_level(start, step, levels.len());
            assert(rate_at(start, 1, 0, 0) <= end);
            assert(false);
        }
    }
    assert forall|i: int, j: int| 0 <= i < j < levels.len() implies levels[i] < levels[j] by {
        lemma_rate_strictly_monotonic(start, multiplier, step, i as nat, j as nat);
    }
    assert forall|i: int| 0 <= i < levels.len() implies 1 <= #[trigger] levels[i] <= end by {
        lemma_rate_grows(start, multiplier, step, i as nat);
        assert(rate_at(start, multiplier, step, i as nat) <= end);
    }
}

/// Where the rate changes at all, a later level is higher than an earlier one.
proof fn lemma_rate_strictly_monotonic(start: int, multiplier: int, step: int, i: nat, j: nat)
    requires
        start >= 1,
        multiplier >= 1,
        step >= 0,
        multiplier > 1 || step > 0,
        i < j,
    ensures
        rate_at(start, multiplier, step, i) < rate_at(start, multiplier, step, j),
    decreases j,
{
    lemma_rate_grows(start, multiplier, step, (j - 1) as nat);
    if i < j - 1 {
        lemma_rate_strictly_monotonic(start, multiplier, step, i, (j - 1) as nat);
    }
}

} // verus!
