use std::sync::Arc;

use extproc_loadtest::error::Error;
use extproc_loadtest::scheduler::{collect_results, Scheduler, WorkerResult, MAX_SPAN_NANOS};
use extproc_loadtest::worker::Worker;

struct Idle;

impl Worker for Idle {
    fn run(&self) -> Result<(), Error> {
        Ok(())
    }
}

fn scheduler(loops: usize) -> Scheduler<Arc<Idle>> {
    let workers: Vec<Arc<Idle>> = (0..loops).map(|_| Arc::new(Idle)).collect();
    Scheduler::new(&workers).unwrap()
}

#[test]
fn a_scheduler_runs_one_loop_per_worker() {
    assert_eq!(scheduler(1).concurrency(), 1);
    assert_eq!(scheduler(8).concurrency(), 8);
    assert_eq!(scheduler(8).workers().len(), 8);
}

#[test]
fn a_scheduler_works_on_copies_that_share_the_session() {
    let worker = Arc::new(Idle);
    let scheduler = Scheduler::new(&[worker.clone()]).unwrap();
    assert!(Arc::ptr_eq(&scheduler.workers()[0], &worker));
}

#[test]
fn the_plan_paces_each_loop_at_the_interval_times_the_loops() {
    let plan = scheduler(8).plan(10_000_000, 8_008_000_000).unwrap();
    assert_eq!(plan.loop_interval_nanos, 80_000_000);
    assert_eq!(plan.size_hint, 100);
    assert_eq!(plan.barrier_parties, 9);
    assert_eq!(
        plan.start_offsets_nanos,
        vec![
            10_000_000, 20_000_000, 30_000_000, 40_000_000, 50_000_000, 60_000_000, 70_000_000,
            80_000_000
        ]
    );
}

#[test]
fn the_size_hint_is_rounded_down() {
    let plan = scheduler(3).plan(7, 100).unwrap();
    assert_eq!(plan.loop_interval_nanos, 21);
    assert_eq!(plan.size_hint, 4);
    assert_eq!(plan.start_offsets_nanos, vec![7, 14, 21]);
    let plan = scheduler(3).plan(7, 20).unwrap();
    assert_eq!(plan.size_hint, 0);
}

#[test]
fn the_longest_pacing_interval_is_planned() {
    let plan = scheduler(1).plan(MAX_SPAN_NANOS, 0).unwrap();
    assert_eq!(plan.loop_interval_nanos, MAX_SPAN_NANOS);
    assert_eq!(plan.start_offsets_nanos, vec![MAX_SPAN_NANOS]);
}

#[test]
fn a_run_too_long_to_count_is_refused() {
    match scheduler(1).plan(1, u128::MAX) {
        Err(Error::EstimatedRequestCountTooLarge) => {}
        other => panic!("expected EstimatedRequestCountTooLarge, got {other:?}"),
    }
}

#[test]
fn results_come_back_one_per_loop_in_loop_order() {
    let outcomes = vec![
        Ok(WorkerResult { request_sent: 1, durations: vec![10] }),
        Ok(WorkerResult { request_sent: 2, durations: vec![20, 21] }),
    ];
    let results = collect_results(outcomes).unwrap();
    let sent: Vec<u64> = results.iter().map(|r| r.request_sent).collect();
    assert_eq!(sent, vec![1, 2]);
    assert_eq!(results[1].durations, vec![20, 21]);
    assert!(collect_results(vec![]).unwrap().is_empty());
}

#[test]
fn one_failing_loop_fails_the_run_with_its_error() {
    for failing in 0..4 {
        let outcomes: Vec<Result<WorkerResult, Error>> = (0..4)
            .map(|i| {
                if i == failing {
                    Err(Error::FailedToCallExtProc(format!("loop {i}")))
                } else {
                    Ok(WorkerResult { request_sent: 5, durations: vec![1; 5] })
                }
            })
            .collect();
        match collect_results(outcomes) {
            Err(Error::FailedToCallExtProc(reason)) => assert_eq!(reason, format!("loop {failing}")),
            other => panic!("expected the failure of loop {failing}, got {other:?}"),
        }
    }
}

#[test]
fn the_first_of_several_failures_is_the_one_returned() {
    let outcomes = vec![
        Ok(WorkerResult { request_sent: 0, durations: vec![] }),
        Err(Error::CannotSendInitialRequest("first".to_string())),
        Err(Error::FailedToCallExtProc("second".to_string())),
    ];
    match collect_results(outcomes) {
        Err(Error::CannotSendInitialRequest(reason)) => assert_eq!(reason, "first"),
        other => panic!("expected the first failure, got {other:?}"),
    }
}
