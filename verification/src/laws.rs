//! The pool's guarantees, stated and proved over [`PoolModel`].
//!
//! Each law speaks about the spec-level transitions that the contracts of
//! [`crate::pool::ThreadPool`]'s operations return, so whatever is proved
//! here holds of every execution of the pool.

use vstd::prelude::*;

use crate::pool::{
    close_workers, first_running, has_running, no_panics, record_of, records_of, run_job,
    spec_drain, spec_execute, spec_new, spec_shutdown, submit_all, ExitReason, Job, JobRecord,
    PoolModel, WorkerState,
};

verus! {

/// Draining keeps the sending side exactly as it was.
proof fn lemma_drain_preserves_sender(m: PoolModel)
    ensures
        spec_drain(m).sender_live == m.sender_live,
    decreases m.queue.len(),
{
    if m.queue.len() == 0 {
    } else if !has_running(m.workers) {
    } else {
        lemma_drain_preserves_sender(run_job(m, first_running(m.workers)));
    }
}

/// The heart of the drain guarantee: while at least one worker runs and no
/// queued job panics, draining runs every queued job exactly once, in queue
/// order, appends exactly their records to the log, touches no worker, and
/// leaves the queue empty.
pub proof fn lemma_drain_runs_all(m: PoolModel)
    requires
        has_running(m.workers),
        no_panics(m.queue),
    ensures
        spec_drain(m).log == m.log + records_of(m.queue),
        spec_drain(m).workers == m.workers,
        spec_drain(m).queue.len() == 0,
        spec_drain(m).sender_live == m.sender_live,
    decreases m.queue.len(),
{
    if m.queue.len() == 0 {
        assert(m.log + records_of(m.queue) =~= m.log);
    } else {
        let m2 = run_job(m, first_running(m.workers));
        assert(!(m.queue[0].outcome is Panics));
        assert forall|i: int| 0 <= i < m2.queue.len() implies !(
        (#[trigger] m2.queue[i]).outcome is Panics) by {
            assert(m2.queue[i] == m.queue[i + 1]);
        }
        lemma_drain_runs_all(m2);
        assert(m.log.push(record_of(m.queue[0])) + records_of(m.queue.drop_first()) =~= m.log
            + records_of(m.queue));
    }
}

/// Constructing a pool of `size` workers brings up exactly `size` running
/// workers and nothing else; tearing it down without submitting anything
/// stops (and so joins) all `size` of them, runs nothing, and returns with
/// an empty queue.
pub proof fn lemma_construction_and_teardown(size: int)
    requires
        1 <= size,
    ensures
        spec_new(size).workers.len() == size,
        forall|i: int| 0 <= i < size ==> (#[trigger] spec_new(size).workers[i]) is Running,
        spec_new(size).queue.len() == 0,
        spec_new(size).log.len() == 0,
        spec_new(size).sender_live,
        spec_shutdown(spec_new(size)).workers.len() == size,
        forall|i: int|
            0 <= i < size ==> (#[trigger] spec_shutdown(spec_new(size)).workers[i])
                == WorkerState::Stopped(ExitReason::ChannelClosed),
        spec_shutdown(spec_new(size)).log.len() == 0,
        spec_shutdown(spec_new(size)).queue.len() == 0,
{
    let m = spec_new(size);
    let m1 = PoolModel { sender_live: false, ..m };
    assert(spec_drain(m1) == m1);
    assert(spec_shutdown(m).workers == close_workers(m1.workers));
}

/// Every job submitted while the sender is live and a worker runs lands at
/// the back of the queue; nothing else about the pool moves.
pub proof fn lemma_submit_all_queues(m: PoolModel, jobs: Seq<Job>)
    requires
        m.sender_live,
        has_running(m.workers),
    ensures
        submit_all(m, jobs).queue == m.queue + jobs,
        submit_all(m, jobs).workers == m.workers,
        submit_all(m, jobs).log == m.log,
        submit_all(m, jobs).sender_live,
    decreases jobs.len(),
{
    if jobs.len() == 0 {
        assert(m.queue + jobs =~= m.queue);
    } else {
        let m2 = spec_execute(m, jobs[0]);
        lemma_submit_all_queues(m2, jobs.drop_first());
        assert(m.queue.push(jobs[0]) + jobs.drop_first() =~= m.queue + jobs);
    }
}

/// While the pool is alive, every one of `jobs` submitted to it is executed
/// exactly once — no duplication, no silent drop — provided no job panics:
/// after teardown the log is exactly the old log followed by one record per
/// queued or submitted job, in order.
pub proof fn lemma_submitted_jobs_run_once(m: PoolModel, jobs: Seq<Job>)
    requires
        m.sender_live,
        has_running(m.workers),
        no_panics(m.queue),
        no_panics(jobs),
    ensures
        spec_shutdown(submit_all(m, jobs)).log == m.log + records_of(m.queue) + records_of(jobs),
        spec_shutdown(submit_all(m, jobs)).queue.len() == 0,
{
    lemma_submit_all_queues(m, jobs);
    let s = submit_all(m, jobs);
    let s1 = PoolModel { sender_live: false, ..s };
    assert forall|i: int| 0 <= i < s1.queue.len() implies !(
    (#[trigger] s1.queue[i]).outcome is Panics) by {
        if i < m.queue.len() {
            assert(s1.queue[i] == m.queue[i]);
        } else {
            assert(s1.queue[i] == jobs[i - m.queue.len()]);
        }
    }
    lemma_drain_runs_all(s1);
    assert(records_of(m.queue + jobs) =~= records_of(m.queue) + records_of(jobs));
    assert(s.log + (records_of(m.queue) + records_of(jobs)) =~= m.log + records_of(m.queue)
        + records_of(jobs));
}

/// A job that returns a failure value is recorded as failed but does not
/// stop the worker that ran it, and every job queued behind it still runs.
pub proof fn lemma_failed_job_does_not_block(m: PoolModel, w: int)
    requires
        0 <= w < m.workers.len(),
        m.workers[w] is Running,
        m.queue.len() > 0,
        m.queue[0].outcome is Fails,
        no_panics(m.queue),
    ensures
        run_job(m, w).workers == m.workers,
        run_job(m, w).log == m.log.push(JobRecord { id: m.queue[0].id, ok: false }),
        spec_drain(run_job(m, w)).log == m.log + records_of(m.queue),
        spec_drain(run_job(m, w)).queue.len() == 0,
{
    let m2 = run_job(m, w);
    assert(has_running(m2.workers)) by {
        assert(m2.workers[w] is Running);
    }
    assert forall|i: int| 0 <= i < m2.queue.len() implies !(
    (#[trigger] m2.queue[i]).outcome is Panics) by {
        assert(m2.queue[i] == m.queue[i + 1]);
    }
    lemma_drain_runs_all(m2);
    assert(m.log.push(record_of(m.queue[0])) + records_of(m.queue.drop_first()) =~= m.log
        + records_of(m.queue));
}

/// A job whose execution panics stops only the worker that ran it: every
/// other worker is untouched, and with at least one other worker still
/// running, every job queued behind the panicking one still runs.
pub proof fn lemma_panic_is_isolated(m: PoolModel, w: int)
    requires
        0 <= w < m.workers.len(),
        m.workers[w] is Running,
        m.queue.len() > 0,
        m.queue[0].outcome is Panics,
        exists|j: int| 0 <= j < m.workers.len() && j != w && (#[trigger] m.workers[j]) is Running,
        no_panics(m.queue.drop_first()),
    ensures
        run_job(m, w).workers[w] == WorkerState::Stopped(ExitReason::JobPanicked),
        forall|j: int|
            0 <= j < m.workers.len() && j != w ==> (#[trigger] run_job(m, w).workers[j])
                == m.workers[j],
        run_job(m, w).log == m.log,
        spec_drain(run_job(m, w)).log == m.log + records_of(m.queue.drop_first()),
        spec_drain(run_job(m, w)).queue.len() == 0,
{
    let m2 = run_job(m, w);
    let j = choose|j: int|
        0 <= j < m.workers.len() && j != w && (#[trigger] m.workers[j]) is Running;
    assert(has_running(m2.workers)) by {
        assert(m2.workers[j] is Running);
    }
    lemma_drain_runs_all(m2);
}

/// Once teardown has begun — the sending handle is gone — submission is a
/// no-op: the job is silently dropped and the pool does not move. In
/// particular a submission made after `shutdown` changes nothing.
pub proof fn lemma_submit_after_shutdown_is_noop(m: PoolModel, j: Job)
    requires
        !m.sender_live,
    ensures
        spec_execute(m, j) == m,
        spec_execute(spec_shutdown(m), j) == spec_shutdown(m),
{
    let m1 = PoolModel { sender_live: false, ..m };
    lemma_drain_preserves_sender(m1);
}

} // verus!

