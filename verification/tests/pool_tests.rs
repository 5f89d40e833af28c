use smt_web_server::pool::{
    continue_after_job, job_failed, ExitReason, Job, JobOutcome, JobRecord, ThreadPool,
    WorkerAction, WorkerEvent, WorkerState,
};
use smt_web_server::ServerError;

fn job(id: u64, outcome: JobOutcome) -> Job {
    Job { id, outcome }
}

#[test]
fn fresh_pool_spawns_and_stops_all_workers() {
    let mut pool = ThreadPool::new(3);
    assert_eq!(pool.worker_count(), 3);
    for i in 0..3 {
        assert_eq!(pool.worker_state(i), WorkerState::Running);
    }
    assert!(pool.is_accepting());
    assert_eq!(pool.pending_count(), 0);

    pool.shutdown();
    assert_eq!(pool.worker_count(), 3);
    for i in 0..3 {
        assert_eq!(
            pool.worker_state(i),
            WorkerState::Stopped(ExitReason::ChannelClosed)
        );
    }
    assert!(!pool.is_accepting());
    assert_eq!(pool.records().len(), 0);
}

#[test]
fn five_jobs_run_exactly_once() {
    let mut pool = ThreadPool::new(2);
    for id in 1..=5u64 {
        pool.execute(job(id, JobOutcome::Succeeds));
    }
    assert_eq!(pool.pending_count(), 5);
    pool.shutdown();
    assert_eq!(pool.pending_count(), 0);

    let records = pool.records();
    assert_eq!(records.len(), 5);
    for id in 1..=5u64 {
        let hits = records.iter().filter(|r| r.id == id).count();
        assert_eq!(hits, 1);
        assert!(records.iter().any(|r| r.id == id && r.ok));
    }
}

#[test]
fn failed_job_reported_then_next_job_runs() {
    let mut pool = ThreadPool::new(1);
    pool.execute(job(
        1,
        JobOutcome::Fails(ServerError::OtherError(String::from("boom"))),
    ));
    pool.execute(job(2, JobOutcome::Succeeds));
    pool.shutdown();

    assert_eq!(
        pool.records(),
        &vec![
            JobRecord { id: 1, ok: false },
            JobRecord { id: 2, ok: true },
        ]
    );
    assert_eq!(
        pool.worker_state(0),
        WorkerState::Stopped(ExitReason::ChannelClosed)
    );
}

#[test]
fn worker_survives_failed_job() {
    let mut pool = ThreadPool::new(1);
    pool.execute(job(
        9,
        JobOutcome::Fails(ServerError::InternalError(String::from("oops"))),
    ));
    pool.step_worker(0);
    assert_eq!(pool.worker_state(0), WorkerState::Running);
    assert_eq!(pool.records(), &vec![JobRecord { id: 9, ok: false }]);
}

#[test]
fn panicking_job_stops_only_its_worker() {
    let mut pool = ThreadPool::new(2);
    pool.execute(job(1, JobOutcome::Panics));
    pool.execute(job(2, JobOutcome::Succeeds));
    pool.execute(job(3, JobOutcome::Succeeds));

    pool.step_worker(0);
    assert_eq!(
        pool.worker_state(0),
        WorkerState::Stopped(ExitReason::JobPanicked)
    );
    assert_eq!(pool.worker_state(1), WorkerState::Running);
    assert_eq!(pool.records().len(), 0);

    pool.shutdown();
    assert_eq!(
        pool.records(),
        &vec![
            JobRecord { id: 2, ok: true },
            JobRecord { id: 3, ok: true },
        ]
    );
}

#[test]
fn shutdown_drains_queued_jobs() {
    let mut pool = ThreadPool::new(1);
    for id in [10u64, 11, 12] {
        pool.execute(job(id, JobOutcome::Succeeds));
    }
    assert_eq!(pool.pending_count(), 3);
    pool.shutdown();
    assert_eq!(pool.pending_count(), 0);
    assert_eq!(
        pool.records(),
        &vec![
            JobRecord { id: 10, ok: true },
            JobRecord { id: 11, ok: true },
            JobRecord { id: 12, ok: true },
        ]
    );
}

#[test]
fn submit_after_shutdown_is_dropped() {
    let mut pool = ThreadPool::new(2);
    pool.shutdown();
    pool.execute(job(1, JobOutcome::Succeeds));
    assert_eq!(pool.pending_count(), 0);
    assert_eq!(pool.records().len(), 0);
    assert!(!pool.is_accepting());
}

#[test]
fn submit_with_no_live_worker_is_dropped() {
    let mut pool = ThreadPool::new(1);
    pool.execute(job(1, JobOutcome::Panics));
    pool.step_worker(0);
    assert_eq!(
        pool.worker_state(0),
        WorkerState::Stopped(ExitReason::JobPanicked)
    );

    pool.execute(job(2, JobOutcome::Succeeds));
    assert_eq!(pool.pending_count(), 0);
    pool.shutdown();
    assert_eq!(pool.records().len(), 0);
}

#[test]
fn worker_decisions_follow_the_state_machine() {
    assert_eq!(
        smt_web_server::pool::worker_action(&WorkerEvent::JobReceived),
        WorkerAction::RunJob
    );
    assert_eq!(
        smt_web_server::pool::worker_action(&WorkerEvent::ChannelClosed),
        WorkerAction::Exit(ExitReason::ChannelClosed)
    );
    assert_eq!(
        smt_web_server::pool::worker_action(&WorkerEvent::LockPoisoned),
        WorkerAction::Exit(ExitReason::LockPoisoned)
    );
}

#[test]
fn job_results_never_stop_the_loop() {
    let ok: Result<(), ServerError> = Ok(());
    let err: Result<(), ServerError> = Err(ServerError::OtherError(String::from("bad")));
    assert!(!job_failed(&ok));
    assert!(job_failed(&err));
    assert!(continue_after_job(&ok));
    assert!(continue_after_job(&err));
}
