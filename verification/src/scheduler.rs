//! The scheduler: one execution loop per worker, paced so that together they
//! reproduce one global rate.

use vstd::prelude::*;
use vstd::arithmetic::div_mod::lemma_div_denominator;
use vstd::arithmetic::div_mod::lemma_fundamental_div_mod;
use vstd::arithmetic::div_mod::lemma_fundamental_div_mod_converse;
use crate::error::Error;
use crate::worker::Worker;

verus! {

/// The longest time span the clock can hold, in nanoseconds: 2^64 - 1 whole
/// seconds and 999,999,999 nanoseconds.
pub const MAX_SPAN_NANOS: u128 = 18_446_744_073_709_551_615_999_999_999;

/// What one execution loop reports when it ends.
#[derive(Debug)]
pub struct WorkerResult {
    /// The number of invocations the loop dispatched.
    pub request_sent: u64,
    /// The latency of each completed invocation, in nanoseconds, in no
    /// particular order.
    pub durations: Vec<u128>,
}

/// How one run is laid out over the loops.
#[derive(Debug)]
pub struct RunPlan {
    /// The time between two dispatches of one loop, in nanoseconds.
    pub loop_interval_nanos: u128,
    /// The number of invocations one loop is expected to complete, for sizing
    /// its latency list up front.
    pub size_hint: usize,
    /// The number of parties that meet at the start barrier: every loop, and
    /// the scheduler itself.
    pub barrier_parties: u64,
    /// For each loop, how long after the common reference instant its pacing
    /// timer first ticks, in nanoseconds.
    pub start_offsets_nanos: Vec<u128>,
}

/// The pacing interval of each of `loops` loops that share a global interval.
pub open spec fn loop_interval(interval: int, loops: int) -> int {
    interval * loops
}

/// The first tick of loop `index` (counted from zero), as a time after the
/// common reference instant. The loops are staggered one global interval
/// apart, and the first tick of the run comes one full interval after the
/// reference instant; so the ticks of all loops together are the multiples of
/// the global interval, each hit once.
pub open spec fn start_offset(interval: int, index: int) -> int {
    (index + 1) * interval
}

/// Runs a set of workers at one global rate, each in a loop of its own.
#[derive(Debug)]
pub struct Scheduler<W> {
    workers: Vec<W>,
    concurrency: u32,
}

impl<W> Scheduler<W> {
    #[verifier::type_invariant]
    spec fn counted(self) -> bool {
        &&& self.concurrency >= 1
        &&& self.workers@.len() == self.concurrency
    }

    /// The workers, one per loop.
    pub closed spec fn worker_seq(self) -> Seq<W> {
        self.workers@
    }

    /// The number of loops.
    pub closed spec fn loops(self) -> int {
        self.concurrency as int
    }
}

impl<W: Worker + Clone> Scheduler<W> {
    /// A scheduler over copies of the given workers, one loop for each.
    ///
    /// There has to be at least one worker, and no more than 32 bits can
    /// count.
    pub fn new(workers: &[W]) -> (res: Result<Self, Error>)
        ensures
            workers@.len() == 0 ==> res matches Err(Error::ConcurrencyMustBeGreaterThanZero),
            workers@.len() > u32::MAX ==> res matches Err(Error::ConcurrencyMustBeLessThanU32Max),
            1 <= workers@.len() <= u32::MAX ==> res is Ok,
            res matches Ok(scheduler) ==> {
                &&& scheduler.loops() == workers@.len()
                &&& scheduler.worker_seq().len() == workers@.len()
                &&& forall|i: int|
                    0 <= i < workers@.len() ==> cloned(
                        #[trigger] workers@[i],
                        scheduler.worker_seq()[i],
                    )
            },
    {
        let count: usize = workers.len();
        if count > u32::MAX as usize {
            return Err(Error::ConcurrencyMustBeLessThanU32Max);
        }
        if count == 0 {
            return Err(Error::ConcurrencyMustBeGreaterThanZero);
        }
        let concurrency: u32 = count as u32;
        let mut copies: Vec<W> = Vec::with_capacity(count);
        let mut i: usize = 0;
        while i < count
            invariant
                count == workers@.len(),
                i <= count,
                copies@.len() == i,
                forall|k: int| 0 <= k < i ==> cloned(#[trigger] workers@[k], copies@[k]),
            decreases count - i,
        {
            copies.push(workers[i].clone());
            i = i + 1;
        }
        Ok(Scheduler { workers: copies, concurrency })
    }

    /// The number of loops this scheduler runs.
    pub fn concurrency(&self) -> (count: u32)
        ensures
            count == self.loops(),
            count >= 1,
    {
        proof {
            use_type_invariant(self);
        }
        self.concurrency
    }

    /// The workers, in loop order.
    pub fn workers(&self) -> (workers: &Vec<W>)
        ensures
            workers@ == self.worker_seq(),
            workers@.len() == self.loops(),
    {
        proof {
            use_type_invariant(self);
        }
        &self.workers
    }

    /// Lays out one run: from the global interval between two dispatches and
    /// the length of the run, the pacing interval of each loop, the first tick
    /// of each loop, the size of the start barrier and the expected number of
    /// invocations per loop.
    ///
    /// The interval must not be zero, and the pacing interval must be a time
    /// span the clock can hold. A run whose expected number of invocations
    /// per loop does not fit the machine's word is refused.
    pub fn plan(&self, interval_nanos: u128, timeout_nanos: u128) -> (res: Result<RunPlan, Error>)
        requires
            interval_nanos > 0,
            loop_interval(interval_nanos as int, self.loops()) <= MAX_SPAN_NANOS,
        ensures
            res is Err <==> timeout_nanos as int / loop_interval(
                interval_nanos as int,
                self.loops(),
            ) > usize::MAX,
            res matches Err(e) ==> e is EstimatedRequestCountTooLarge,
            res matches Ok(plan) ==> {
                &&& plan.loop_interval_nanos == loop_interval(interval_nanos as int, self.loops())
                &&& plan.size_hint == timeout_nanos as int / loop_interval(
                    interval_nanos as int,
                    self.loops(),
                )
                &&& plan.barrier_parties == self.loops() + 1
                &&& plan.start_offsets_nanos@.len() == self.loops()
                &&& forall|i: int|
                    0 <= i < self.loops() ==> #[trigger] plan.start_offsets_nanos@[i]
                        == start_offset(interval_nanos as int, i)
            },
    {
        proof {
            use_type_invariant(self);
        }
        let loops: u32 = self.concurrency;
        // "Round robin" the workers: each loop paces at the global interval
        // times the number of loops.
        let loop_interval_nanos: u128 = interval_nanos * (loops as u128);
        assert(loop_interval_nanos >= interval_nanos) by (nonlinear_arith)
            requires
                loop_interval_nanos == interval_nanos * loops,
                loops >= 1,
        ;
        let estimate: u128 = timeout_nanos / loop_interval_nanos;
        if estimate > usize::MAX as u128 {
            return Err(Error::EstimatedRequestCountTooLarge);
        }
        let size_hint: usize = estimate as usize;

        let mut offsets: Vec<u128> = Vec::with_capacity(self.workers.len());
        let mut offset: u128 = 0;
        let mut i: u32 = 0;
        while i < loops
            invariant
                interval_nanos > 0,
                i <= loops,
                interval_nanos * loops <= MAX_SPAN_NANOS,
                offset == i * interval_nanos,
                offsets@.len() == i,
                forall|k: int|
                    0 <= k < i ==> #[trigger] offsets@[k] == start_offset(interval_nanos as int, k),
            decreases loops - i,
        {
            assert((i + 1) * interval_nanos == i * interval_nanos + interval_nanos
                && (i + 1) * interval_nanos <= interval_nanos * loops) by (nonlinear_arith)
                requires
                    i < loops,
                    interval_nanos > 0,
            ;
            // Offset each loop by one more interval, so that no two tick at
            // the same time.
            offset = offset + interval_nanos;
            offsets.push(offset);
            i = i + 1;
        }
        Ok(
            RunPlan {
                loop_interval_nanos,
                size_hint,
                barrier_parties: loops as u64 + 1,
                start_offsets_nanos: offsets,
            },
        )
    }
}

/// The index of the first loop that failed, if any did.
pub open spec fn first_failure(outcomes: Seq<Result<WorkerResult, Error>>) -> Option<int>
    decreases outcomes.len(),
{
    if outcomes.len() == 0 {
        None
    } else {
        match first_failure(outcomes.drop_last()) {
            Some(i) => Some(i),
            None => if outcomes.last() is Err {
                Some(outcomes.len() - 1)
            } else {
                None
            },
        }
    }
}

/// Gathers what the loops ended with into the result of the run.
///
/// If every loop ended well, the run yields their results, one per loop and
/// in loop order. If any loop failed, the whole run fails with the error of
/// the first loop that did, and yields no result at all.
pub fn collect_results(outcomes: Vec<Result<WorkerResult, Error>>) -> (res: Result<
    Vec<WorkerResult>,
    Error,
>)
    ensures
        match first_failure(outcomes@) {
            Some(i) => res == Err::<Vec<WorkerResult>, Error>(outcomes@[i]->Err_0),
            None => res matches Ok(results) && results@.len() == outcomes@.len() && forall|k: int|
                0 <= k < outcomes@.len() ==> outcomes@[k] == Ok::<WorkerResult, Error>(
                    #[trigger] results@[k],
                ),
        },
{
    let ghost all = outcomes@;
    let mut results: Vec<WorkerResult> = Vec::with_capacity(outcomes.len());
    for outcome in it: outcomes
        invariant
            it.seq() == all,
            first_failure(all.take(it.index() as int)) is None,
            results@.len() == it.index(),
            forall|k: int|
                0 <= k < it.index() ==> all[k] == Ok::<WorkerResult, Error>(#[trigger] results@[k]),
    {
        let ghost n = it.index() as int;
        proof {
            assert(all.take(n + 1).drop_last() =~= all.take(n));
            assert(all.take(n + 1).last() == all[n]);
        }
        match outcome {
            Ok(result) => {
                results.push(result);
            },
            Err(error) => {
                proof {
                    lemma_first_failure_prefix(all, n + 1);
                }
                return Err(error);
            },
        }
    }
    proof {
        assert(all.take(all.len() as int) =~= all);
    }
    Ok(results)
}

/// A failure found in a prefix is the first failure of the whole.
proof fn lemma_first_failure_prefix(outcomes: Seq<Result<WorkerResult, Error>>, n: int)
    requires
        0 <= n <= outcomes.len(),
        first_failure(outcomes.take(n)) is Some,
    ensures
        first_failure(outcomes) == first_failure(outcomes.take(n)),
    decreases outcomes.len() - n,
{
    if n < outcomes.len() {
        assert(outcomes.take(n + 1).drop_last() =~= outcomes.take(n));
        lemma_first_failure_prefix(outcomes, n + 1);
    } else {
        assert(outcomes.take(n) =~= outcomes);
    }
}

/// The first failure is the failure of the lowest-numbered loop that failed;
/// there is none exactly if every loop ended well.
pub proof fn lemma_first_failure_is_least(outcomes: Seq<Result<WorkerResult, Error>>)
    ensures
        match first_failure(outcomes) {
            Some(i) => 0 <= i < outcomes.len() && outcomes[i] is Err && forall|k: int|
                0 <= k < i ==> (#[trigger] outcomes[k]) is Ok,
            None => forall|k: int| 0 <= k < outcomes.len() ==> (#[trigger] outcomes[k]) is Ok,
        },
    decreases outcomes.len(),
{
    if outcomes.len() > 0 {
        let front = outcomes.drop_last();
        lemma_first_failure_is_least(front);
        assert forall|k: int| 0 <= k < front.len() implies front[k] == outcomes[k] by {}
        match first_failure(front) {
            Some(i) => {
                assert(front[i] == outcomes[i]);
                assert forall|k: int| 0 <= k < i implies (#[trigger] outcomes[k]) is Ok by {
                    assert(front[k] is Ok);
                }
            },
            None => {
                assert forall|k: int| 0 <= k < outcomes.len() - 1 implies (
                #[trigger] outcomes[k]) is Ok by {
                    assert(front[k] is Ok);
                }
            },
        }
    }
}

/// If exactly one loop of a run fails, the run fails with the error of that
/// loop, however many loops ended well and wherever the failing one stands
/// among them.
pub proof fn lemma_single_failure_fails_the_run(
    outcomes: Seq<Result<WorkerResult, Error>>,
    failing: int,
)
    requires
        0 <= failing < outcomes.len(),
        outcomes[failing] is Err,
        forall|k: int| 0 <= k < outcomes.len() && k != failing ==> (#[trigger] outcomes[k]) is Ok,
    ensures
        first_failure(outcomes) == Some(failing),
{
    lemma_first_failure_is_least(outcomes);
    match first_failure(outcomes) {
        Some(i) => {
            if i != failing {
                assert(outcomes[i] is Ok);
            }
        },
        None => {
            assert(outcomes[failing] is Ok);
        },
    }
}

/// The number of ticks, within a window that starts at the reference instant
/// and lasts `window`, of a pacing timer that first ticks at `first` and then
/// every `period`. A tick at the very end of the window counts.
pub open spec fn ticks_within(first: int, period: int, window: int) -> int {
    if first > window {
        0
    } else {
        (window - first) / period + 1
    }
}

/// The ticks within the window of the first `n` loops together.
pub open spec fn total_ticks(interval: int, loops: int, window: int, n: nat) -> int
    decreases n,
{
    if n == 0 {
        0
    } else {
        total_ticks(interval, loops, window, (n - 1) as nat) + ticks_within(
            start_offset(interval, n - 1),
            loop_interval(interval, loops),
            window,
        )
    }
}

/// One more tick for each loop that the remainder still reaches.
spec fn extra_tick(index: int, remainder: int) -> int {
    if index < remainder {
        1
    } else {
        0
    }
}

/// The ticks of one loop: with `n` the number of global intervals in the
/// window, every loop ticks `n / loops` times, and each of the first
/// `n % loops` loops once more.
proof fn lemma_ticks_of_loop(interval: int, loops: int, window: int, index: int)
    requires
        interval > 0,
        loops >= 1,
        window >= 0,
        0 <= index < loops,
    ensures
        ticks_within(start_offset(interval, index), loop_interval(interval, loops), window) == (
        window / interval) / loops + extra_tick(index, (window / interval) % loops),
        window / loop_interval(interval, loops) == (window / interval) / loops,
{
    let n = window / interval;
    let t = window % interval;
    let q = n / loops;
    let m = n % loops;
    let r = index + 1;
    let first = start_offset(interval, index);
    lemma_fundamental_div_mod(window, interval);
    lemma_fundamental_div_mod(n, loops);
    lemma_div_denominator(window, interval, loops);
    assert(0 <= t < interval);
    assert(0 <= m < loops);
    assert(n >= 0) by (nonlinear_arith)
        requires
            window == interval * n + t,
            window >= 0,
            0 <= t < interval,
    ;
    if r <= n {
        assert(first <= window && window - first == (n - r) * interval + t) by (nonlinear_arith)
            requires
                first == r * interval,
                window == interval * n + t,
                r <= n,
                interval > 0,
                0 <= t,
        ;
        lemma_fundamental_div_mod_converse(window - first, interval, n - r, t);
        lemma_div_denominator(window - first, interval, loops);
        assert((window - first) / (interval * loops) == (n - r) / loops);
        if r <= m {
            assert(n - r == q * loops + (m - r)) by (nonlinear_arith)
                requires
                    n == loops * q + m,
            ;
            lemma_fundamental_div_mod_converse(n - r, loops, q, m - r);
        } else {
            assert(n - r == (q - 1) * loops + (loops + m - r)) by (nonlinear_arith)
                requires
                    n == loops * q + m,
            ;
            lemma_fundamental_div_mod_converse(n - r, loops, q - 1, loops + m - r);
        }
    } else {
        assert(first > window) by (nonlinear_arith)
            requires
                first == r * interval,
                window == interval * n + t,
                r >= n + 1,
                interval > 0,
                t < interval,
        ;
        assert(n == 0 * loops + n) by (nonlinear_arith);
        lemma_fundamental_div_mod_converse(n, loops, 0, n);
    }
}

/// The ticks of the first `count` loops together.
proof fn lemma_total_ticks_of_prefix(interval: int, loops: int, window: int, count: nat)
    requires
        interval > 0,
        loops >= 1,
        window >= 0,
        count <= loops,
    ensures
        total_ticks(interval, loops, window, count) == count * ((window / interval) / loops) + (
        if count <= (window / interval) % loops {
            count as int
        } else {
            (window / interval) % loops
        }),
    decreases count,
{
    let q = (window / interval) / loops;
    if count > 0 {
        let before = (count - 1) as nat;
        lemma_total_ticks_of_prefix(interval, loops, window, before);
        lemma_ticks_of_loop(interval, loops, window, count - 1);
        assert(count * q == before * q + q) by (nonlinear_arith)
            requires
                before + 1 == count,
        ;
    } else {
        assert(count * q == 0) by (nonlinear_arith)
            requires
                count == 0,
        ;
    }
}

/// Staggered loops reproduce the global rate. With workers that answer at
/// once and a generator that misses no tick, the loops of one run together
/// dispatch once per global interval that fits in the run: `window /
/// interval` times. No loop is off by more than one tick from its even share:
/// each dispatches `window / loop_interval` times, or once more.
pub proof fn lemma_loops_reproduce_global_rate(interval: int, loops: int, window: int)
    requires
        interval > 0,
        loops >= 1,
        window >= 0,
    ensures
        total_ticks(interval, loops, window, loops as nat) == window / interval,
        forall|index: int|
            0 <= index < loops ==> {
                let share = window / loop_interval(interval, loops);
                let ticks = #[trigger] ticks_within(
                    start_offset(interval, index),
                    loop_interval(interval, loops),
                    window,
                );
                share <= ticks <= share + 1
            },
{
    let n = window / interval;
    lemma_total_ticks_of_prefix(interval, loops, window, loops as nat);
    lemma_fundamental_div_mod(n, loops);
    assert(loops * (n / loops) == (loops as nat) * (n / loops));
    assert forall|index: int| 0 <= index < loops implies {
        let share = window / loop_interval(interval, loops);
        let ticks = #[trigger] ticks_within(
            start_offset(interval, index),
            loop_interval(interval, loops),
            window,
        );
        share <= ticks <= share + 1
    } by {
        lemma_ticks_of_loop(interval, loops, window, index);
    }
}

} // verus!
