use std::sync::atomic::{AtomicU32, Ordering};
use std::sync::Arc;

use extproc_loadtest::error::Error;
use extproc_loadtest::pacing::{
    ExecutionLoop, LoopAction, LoopEvent, LoopPhase, REPORT_INTERVAL_NANOS,
};
use extproc_loadtest::scheduler::{collect_results, RunPlan, Scheduler, WorkerResult};
use extproc_loadtest::worker::Worker;

const WORKER_COUNT: usize = 8;
const MILLI: u128 = 1_000_000;

fn interval() -> u128 {
    80 * MILLI
}

fn timeout() -> u128 {
    // A tenth of the interval on top, so that the deadline never falls on a tick.
    8000 * MILLI + interval() / 10
}

#[derive(Debug)]
struct StubWorker {
    _idx: usize,
    triggers: AtomicU32,
}

impl StubWorker {
    fn new(idx: usize) -> Self {
        Self { _idx: idx, triggers: AtomicU32::new(0) }
    }
}

impl Worker for StubWorker {
    fn run(&self) -> Result<(), Error> {
        let _ = self.triggers.fetch_add(1, Ordering::Relaxed);
        Ok(())
    }
}

#[derive(Debug)]
struct ErrorWorker {
    _idx: usize,
    triggers: AtomicU32,
    should_error: bool,
}

impl ErrorWorker {
    fn new(idx: usize, should_error: bool) -> Self {
        Self { _idx: idx, triggers: AtomicU32::new(0), should_error }
    }
}

impl Worker for ErrorWorker {
    fn run(&self) -> Result<(), Error> {
        let _ = self.triggers.fetch_add(1, Ordering::Relaxed);
        if self.should_error {
            Err(Error::ConcurrencyMustBeGreaterThanZero)
        } else {
            Ok(())
        }
    }
}

#[derive(Debug)]
struct SlowWorker {
    _idx: usize,
    triggers: AtomicU32,
    delay: u128,
}

impl SlowWorker {
    fn new(idx: usize, delay: u128) -> Self {
        Self { _idx: idx, triggers: AtomicU32::new(0), delay }
    }
}

impl Worker for SlowWorker {
    fn run(&self) -> Result<(), Error> {
        let _ = self.triggers.fetch_add(1, Ordering::Relaxed);
        Ok(())
    }
}

/// How long each of the slow workers takes, on the test's clock.
fn delays(workers: &[Arc<SlowWorker>]) -> Vec<u128> {
    workers.iter().map(|w| w.delay).collect()
}

fn workers() -> Vec<Arc<StubWorker>> {
    (0..WORKER_COUNT).map(StubWorker::new).map(Arc::new).collect()
}

/// One loop on a clock that only exists in the test: pacing ticks from
/// `first_tick` on, report ticks every quarter of a second, cancellation at
/// `deadline`. An invocation started at `t` resolves at `t + latency`.
fn run_one_loop<W: Worker>(
    worker: &W,
    latency: u128,
    first_tick: u128,
    plan: &RunPlan,
    deadline: u128,
) -> Result<(WorkerResult, usize), Error> {
    let mut state = ExecutionLoop::new(plan.size_hint);
    let mut pending: Vec<(u128, Result<(), Error>)> = Vec::new();
    let mut reported: usize = 0;
    let mut next_tick = first_tick;
    let mut next_report = 0_u128;
    let mut cancelled = false;
    loop {
        let next_done = pending.iter().map(|p| p.0).min();
        let mut now = if cancelled { u128::MAX } else { deadline };
        if !cancelled {
            now = now.min(next_tick).min(next_report);
        }
        if let Some(done) = next_done {
            now = now.min(done);
        }
        let event = if next_done == Some(now) {
            let at = pending.iter().position(|p| p.0 == now).unwrap();
            match pending.remove(at).1 {
                Ok(()) => LoopEvent::Completed(latency),
                Err(error) => LoopEvent::WorkerFailed(error),
            }
        } else if !cancelled && now == deadline {
            cancelled = true;
            LoopEvent::Cancelled
        } else if now == next_tick {
            next_tick += plan.loop_interval_nanos;
            LoopEvent::PacingTick
        } else {
            next_report += REPORT_INTERVAL_NANOS;
            LoopEvent::ReportTick
        };
        match state.step(event) {
            LoopAction::Dispatch => pending.push((now + latency, worker.run())),
            LoopAction::Report(delta) => reported += delta,
            LoopAction::Wait => assert_eq!(state.has_in_flight(), !pending.is_empty()),
            LoopAction::Finish => {
                assert!(pending.is_empty());
                assert_eq!(state.phase(), LoopPhase::Drained);
                return Ok((state.into_result().unwrap(), reported));
            }
            LoopAction::Abort(error) => return Err(error),
        }
    }
}

/// A whole run on the test's clock: every loop laid out by the scheduler's
/// plan, and the outcomes gathered as the scheduler gathers them.
fn run<W: Worker + Clone>(
    scheduler: &Scheduler<W>,
    latencies: &[u128],
    interval: u128,
    timeout: u128,
) -> Result<Vec<WorkerResult>, Error> {
    let plan = scheduler.plan(interval, timeout)?;
    assert_eq!(plan.barrier_parties, scheduler.workers().len() as u64 + 1);
    let mut outcomes = Vec::new();
    for (i, worker) in scheduler.workers().iter().enumerate() {
        let outcome =
            run_one_loop(worker, latencies[i], plan.start_offsets_nanos[i], &plan, timeout);
        outcomes.push(outcome.map(|(result, reported)| {
            assert!(reported <= result.durations.len());
            result
        }));
    }
    collect_results(outcomes)
}

#[test]
fn test_worker_scheduler() {
    let w = workers();
    let scheduler = Scheduler::new(&w).unwrap();
    let durations = run(&scheduler, &[0; WORKER_COUNT], interval(), timeout()).unwrap();

    let calls = w.iter().map(|w| w.triggers.load(Ordering::Relaxed)).collect::<Vec<_>>();

    assert_eq!(calls, vec![13, 13, 13, 13, 12, 12, 12, 12,]);
    let mut result = durations.iter().map(|r| r.durations.len()).collect::<Vec<_>>();
    result.sort_unstable();

    assert_eq!(result, vec![12, 12, 12, 12, 13, 13, 13, 13,]);
}

#[test]
fn test_worker_scheduler_new_with_empty_workers() {
    let result = Scheduler::<Arc<StubWorker>>::new(&[]);
    assert!(result.is_err());
    match result.unwrap_err() {
        Error::ConcurrencyMustBeGreaterThanZero => {}
        _ => panic!("Expected ConcurrencyMustBeGreaterThanZero error"),
    }
}

#[test]
fn test_worker_scheduler_new_with_single_worker() {
    let workers = vec![Arc::new(StubWorker::new(0))];
    let result = Scheduler::new(&workers);
    assert!(result.is_ok());
}

#[test]
fn test_worker_scheduler_new_with_many_workers() {
    let workers: Vec<Arc<StubWorker>> = (0..1000).map(|i| Arc::new(StubWorker::new(i))).collect();
    let result = Scheduler::new(&workers);
    assert!(result.is_ok());
}

#[test]
fn test_worker_scheduler_handles_fast_intervals() {
    let w = workers();
    let scheduler = Scheduler::new(&w).unwrap();
    let short_interval = 10 * MILLI;
    let short_timeout = 100 * MILLI;

    let durations = run(&scheduler, &[0; WORKER_COUNT], short_interval, short_timeout).unwrap();

    assert!(!durations.is_empty());

    let total_calls: u32 = w.iter().map(|w| w.triggers.load(Ordering::Relaxed)).sum();
    assert!(total_calls > 0, "Work should be performed");
}

#[test]
fn test_worker_scheduler_handles_slow_intervals() {
    let w = workers();
    let scheduler = Scheduler::new(&w).unwrap();
    let long_interval = 1000 * MILLI;
    let short_timeout = 500 * MILLI;

    let durations = run(&scheduler, &[0; WORKER_COUNT], long_interval, short_timeout).unwrap();

    assert!(durations.len() < 100);
    let total_calls: u32 = w.iter().map(|w| w.triggers.load(Ordering::Relaxed)).sum();
    assert_eq!(total_calls, 0);
}

#[test]
fn test_worker_scheduler_propagates_worker_errors() {
    let error_workers: Vec<Arc<ErrorWorker>> =
        (0..4).map(|i| Arc::new(ErrorWorker::new(i, i == 2))).collect();

    let scheduler = Scheduler::new(&error_workers).unwrap();
    let result = run(&scheduler, &[0; 4], interval(), timeout());

    assert!(result.is_err());
    match result.unwrap_err() {
        Error::ConcurrencyMustBeGreaterThanZero => {}
        _ => panic!("Expected ConcurrencyMustBeGreaterThanZero error"),
    }
}

#[test]
fn test_worker_scheduler_handles_slow_workers() {
    let slow_workers: Vec<Arc<SlowWorker>> = (0..4)
        .map(|i| {
            let delay = if i == 1 { 50 * MILLI } else { MILLI };
            Arc::new(SlowWorker::new(i, delay))
        })
        .collect();

    let scheduler = Scheduler::new(&slow_workers).unwrap();
    let durations = run(&scheduler, &delays(&slow_workers), interval(), timeout()).unwrap();

    assert!(!durations.is_empty());
}

#[test]
fn test_worker_scheduler_handles_saturation() {
    let slow_workers: Vec<Arc<SlowWorker>> =
        (0..2).map(|i| Arc::new(SlowWorker::new(i, 200 * MILLI))).collect();

    let scheduler = Scheduler::new(&slow_workers).unwrap();
    let short_interval = 50 * MILLI;
    let timeout = 1000 * MILLI;

    let durations = run(&scheduler, &delays(&slow_workers), short_interval, timeout).unwrap();

    assert!(!durations.is_empty());
    assert!(durations.len() < 100);
}

#[test]
fn test_worker_scheduler_respects_timeout() {
    let w = workers();
    let scheduler = Scheduler::new(&w).unwrap();

    let very_short_timeout = MILLI;
    let durations = run(&scheduler, &[0; WORKER_COUNT], interval(), very_short_timeout).unwrap();

    assert!(durations.len() < 10);
    assert!(durations.iter().all(|r| r.request_sent == 0));
}

#[test]
fn test_worker_trait_implementation() {
    let worker = Arc::new(StubWorker::new(0));
    assert!(worker.run().is_ok());
    assert_eq!(worker.triggers.load(Ordering::Relaxed), 1);
}

#[test]
fn test_worker_scheduler_high_concurrency() {
    let many_workers: Vec<Arc<StubWorker>> =
        (0..100).map(|i| Arc::new(StubWorker::new(i))).collect();

    let scheduler = Scheduler::new(&many_workers).unwrap();
    let durations = run(&scheduler, &[0; 100], interval(), timeout()).unwrap();

    assert!(!durations.is_empty());
}

#[test]
fn test_worker_scheduler_work_distribution() {
    let w = workers();
    let scheduler = Scheduler::new(&w).unwrap();
    let durations = run(&scheduler, &[0; WORKER_COUNT], interval(), timeout()).unwrap();

    let total_calls: u32 = w.iter().map(|w| w.triggers.load(Ordering::Relaxed)).sum();
    assert!(total_calls > 0, "Work should be distributed");

    assert_eq!(durations.iter().map(|r| r.durations.len()).sum::<usize>(), 100);
}

#[test]
fn test_worker_scheduler_schedules_at_interval_despite_slow_tasks() {
    let slow_workers: Vec<Arc<SlowWorker>> =
        (0..4).map(|i| Arc::new(SlowWorker::new(i, 150 * MILLI))).collect();

    let scheduler = Scheduler::new(&slow_workers).unwrap();
    let short_interval = 50 * MILLI;
    let test_timeout = 1000 * MILLI;

    let durations =
        run(&scheduler, &delays(&slow_workers), short_interval, test_timeout).unwrap();

    assert_eq!(durations.len(), 4, "Should have results from all 4 workers");

    let total_calls: u32 = slow_workers.iter().map(|w| w.triggers.load(Ordering::Relaxed)).sum();
    assert!(
        total_calls >= 8,
        "Workers should be called multiple times due to concurrent scheduling"
    );

    let total_completed_tasks: usize = durations.iter().map(|r| r.durations.len()).sum();
    assert!(total_completed_tasks >= 4, "Should complete at least 4 tasks over the test period");

    let expected_min_schedules_per_worker = 3;
    for (i, worker_calls) in
        slow_workers.iter().map(|w| w.triggers.load(Ordering::Relaxed)).enumerate()
    {
        assert!(
            worker_calls >= expected_min_schedules_per_worker,
            "Worker {i} should be scheduled at least {expected_min_schedules_per_worker} times, but was only scheduled {worker_calls} times",
        );
    }

    let completed_tasks_per_worker: Vec<usize> =
        durations.iter().map(|r| r.durations.len()).collect();
    let total_completed = completed_tasks_per_worker.iter().sum::<usize>();
    assert!(
        total_completed >= 4,
        "Should complete at least 4 tasks total, but only completed {total_completed}",
    );
    // Nothing in flight is lost: every dispatch has its latency.
    for result in &durations {
        assert_eq!(result.durations.len() as u64, result.request_sent);
        assert!(result.durations.iter().all(|d| *d == 150 * MILLI));
    }
}
