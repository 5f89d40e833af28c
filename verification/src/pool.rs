//! A fixed-size worker pool, verified as a state machine.
//!
//! The pool owns a bounded set of workers and an unbounded FIFO queue of
//! jobs. Submission is fire-and-forget: it never blocks and never reports
//! an outcome to the caller. Teardown is explicit and synchronous: it stops
//! accepting work, lets the surviving workers drain every job that is still
//! queued, and leaves every worker stopped.
//!
//! The state of the pool is captured by [`PoolModel`]; every operation's
//! contract says exactly which model the operation produces. A job is
//! modelled by what it does when it is run: it succeeds, returns a typed
//! failure, or panics. Executed jobs leave a [`JobRecord`] behind, which is
//! the model of the pool's observability interface: per-job outcomes are
//! reported there and nowhere else.

use vstd::prelude::*;

use crate::error::ServerError;

verus! {

/// Why a worker's loop ended.
#[derive(Clone, Copy, Debug, PartialEq, Eq, Structural)]
pub enum ExitReason {
    /// The queue was closed and empty: the normal end of a worker's life.
    ChannelClosed,
    /// The lock guarding the shared receiving end was poisoned by another
    /// worker's panic; the surviving worker exits rather than re-panic.
    LockPoisoned,
    /// The job this worker was running panicked and took the worker with it.
    JobPanicked,
}

/// The lifecycle state of one worker.
#[derive(Clone, Copy, Debug, PartialEq, Eq, Structural)]
pub enum WorkerState {
    /// The worker is alive: waiting for a job or running one.
    Running,
    /// The worker's loop has ended, for the recorded reason.
    Stopped(ExitReason),
}

/// What a job does when a worker runs it.
#[derive(Debug)]
pub enum JobOutcome {
    /// The job returns success.
    Succeeds,
    /// The job returns a typed failure, which is reported and discarded.
    Fails(ServerError),
    /// The job panics, terminating the worker that runs it.
    Panics,
}

/// A one-shot unit of work: consumed exactly once by the worker that runs it.
#[derive(Debug)]
pub struct Job {
    /// Caller-chosen identifier, echoed in the job's record.
    pub id: u64,
    /// What running the job does.
    pub outcome: JobOutcome,
}

/// The trace a completed job leaves behind: its id and whether it succeeded.
/// A panicking job leaves no record, since it never returns.
#[derive(Clone, Copy, Debug, PartialEq, Eq, Structural)]
pub struct JobRecord {
    pub id: u64,
    pub ok: bool,
}

/// The abstract state of a pool: one state per worker, the queue of jobs
/// not yet taken, the records of jobs that ran, and whether the sending
/// side of the queue is still live.
#[verifier::ext_equal]
pub ghost struct PoolModel {
    pub workers: Seq<WorkerState>,
    pub queue: Seq<Job>,
    pub log: Seq<JobRecord>,
    pub sender_live: bool,
}

/// Does any worker still run?
pub open spec fn has_running(ws: Seq<WorkerState>) -> bool {
    exists|i: int| 0 <= i < ws.len() && ws[i] is Running
}

/// The smallest index of a running worker (meaningful only when one exists).
pub open spec fn first_running(ws: Seq<WorkerState>) -> int
    decreases ws.len(),
{
    if ws.len() == 0 {
        0
    } else if ws[0] is Running {
        0
    } else {
        1 + first_running(ws.drop_first())
    }
}

/// The record a job leaves when it runs to completion.
pub open spec fn record_of(j: Job) -> JobRecord {
    JobRecord { id: j.id, ok: j.outcome is Succeeds }
}

/// The records of a whole queue, in queue order.
pub open spec fn records_of(q: Seq<Job>) -> Seq<JobRecord> {
    Seq::new(q.len(), |i: int| record_of(q[i]))
}

/// No job in the queue panics when run.
pub open spec fn no_panics(q: Seq<Job>) -> bool {
    forall|i: int| 0 <= i < q.len() ==> !((#[trigger] q[i]).outcome is Panics)
}

/// A freshly constructed pool: `size` running workers, nothing queued,
/// nothing run, submissions accepted.
pub open spec fn spec_new(size: int) -> PoolModel {
    PoolModel {
        workers: Seq::new(size as nat, |i: int| WorkerState::Running),
        queue: Seq::empty(),
        log: Seq::empty(),
        sender_live: true,
    }
}

/// Submission: the job is queued when the sender is live and some worker
/// still holds the receiving end; otherwise it is dropped and the pool is
/// left exactly as it was.
pub open spec fn spec_execute(m: PoolModel, j: Job) -> PoolModel {
    if m.sender_live && has_running(m.workers) {
        PoolModel { queue: m.queue.push(j), ..m }
    } else {
        m
    }
}

/// Worker `w` takes the job at the head of the queue and runs it.
/// A completing job (success or failure) leaves its record and the worker
/// keeps running; a panicking job leaves no record and stops only worker `w`.
pub open spec fn run_job(m: PoolModel, w: int) -> PoolModel {
    let j = m.queue[0];
    let rest = m.queue.drop_first();
    if j.outcome is Panics {
        PoolModel {
            queue: rest,
            workers: m.workers.update(w, WorkerState::Stopped(ExitReason::JobPanicked)),
            ..m
        }
    } else {
        PoolModel { queue: rest, log: m.log.push(record_of(j)), ..m }
    }
}

/// One scheduling step of worker `w`: it runs the head job if it is itself
/// running and a job is queued, and changes nothing otherwise.
pub open spec fn spec_step(m: PoolModel, w: int) -> PoolModel {
    if 0 <= w < m.workers.len() && m.workers[w] is Running && m.queue.len() > 0 {
        run_job(m, w)
    } else {
        m
    }
}

/// Drain the queue: while jobs remain and some worker runs, the lowest
/// running worker takes the next job. Jobs left when no worker survives are
/// dropped unrun, as they are when the last receiving handle disappears.
pub open spec fn spec_drain(m: PoolModel) -> PoolModel
    decreases m.queue.len(),
{
    if m.queue.len() == 0 {
        m
    } else if !has_running(m.workers) {
        PoolModel { queue: Seq::empty(), ..m }
    } else {
        spec_drain(run_job(m, first_running(m.workers)))
    }
}

/// Every worker that is still running observes the closed queue and stops.
pub open spec fn close_workers(ws: Seq<WorkerState>) -> Seq<WorkerState> {
    Seq::new(
        ws.len(),
        |i: int|
            if ws[i] is Running {
                WorkerState::Stopped(ExitReason::ChannelClosed)
            } else {
                ws[i]
            },
    )
}

/// Teardown: close the sending side first, drain the queue, then every
/// surviving worker stops on the closed channel.
pub open spec fn spec_shutdown(m: PoolModel) -> PoolModel {
    let d = spec_drain(PoolModel { sender_live: false, ..m });
    PoolModel { workers: close_workers(d.workers), ..d }
}

/// A sequence of submissions, oldest first, made while the pool is alive.
pub open spec fn submit_all(m: PoolModel, jobs: Seq<Job>) -> PoolModel
    decreases jobs.len(),
{
    if jobs.len() == 0 {
        m
    } else {
        submit_all(spec_execute(m, jobs[0]), jobs.drop_first())
    }
}

/// The decisions a worker thread loop makes, one per observable event.
/// An unverified thread loop performs only the actions chosen here.
pub enum WorkerEvent {
    /// A job arrived through the shared receiving end.
    JobReceived,
    /// The queue is closed and empty: no job will ever arrive again.
    ChannelClosed,
    /// The lock guarding the receiving end was poisoned by another
    /// worker's panic.
    LockPoisoned,
}

/// What a worker does next, as decided by [`worker_action`].
#[derive(Clone, Copy, Debug, PartialEq, Eq, Structural)]
pub enum WorkerAction {
    /// Run the job that was received, outside the lock, then loop again.
    RunJob,
    /// Leave the loop for the given reason.
    Exit(ExitReason),
}

/// The worker loop's next move for each event it can observe: run what
/// arrived; exit quietly when the channel closes; exit rather than
/// re-panic when the lock is poisoned.
pub fn worker_action(event: &WorkerEvent) -> (a: WorkerAction)
    ensures
        event is JobReceived ==> a == WorkerAction::RunJob,
        event is ChannelClosed ==> a == WorkerAction::Exit(ExitReason::ChannelClosed),
        event is LockPoisoned ==> a == WorkerAction::Exit(ExitReason::LockPoisoned),
{
    match event {
        WorkerEvent::JobReceived => WorkerAction::RunJob,
        WorkerEvent::ChannelClosed => WorkerAction::Exit(ExitReason::ChannelClosed),
        WorkerEvent::LockPoisoned => WorkerAction::Exit(ExitReason::LockPoisoned),
    }
}

/// Whether a finished job's result must be reported as a failure.
pub fn job_failed(result: &Result<(), ServerError>) -> (b: bool)
    ensures
        b == (result is Err),
{
    match result {
        Ok(_) => false,
        Err(_) => true,
    }
}

/// Whether the worker loop carries on after a job has returned `result`:
/// always. A failing job is reported and discarded; it never stops the
/// worker that ran it.
pub fn continue_after_job(result: &Result<(), ServerError>) -> (c: bool)
    ensures
        c,
{
    match result {
        Ok(_) => true,
        Err(_) => true,
    }
}

/// When everything below `i` has stopped and `i` runs, `i` is the lowest
/// running worker.
proof fn lemma_first_running_at(ws: Seq<WorkerState>, i: int)
    requires
        0 <= i < ws.len(),
        forall|k: int| 0 <= k < i ==> !((#[trigger] ws[k]) is Running),
        ws[i] is Running,
    ensures
        first_running(ws) == i,
    decreases i,
{
    if i == 0 {
    } else {
        let t = ws.drop_first();
        assert forall|k: int| 0 <= k < i - 1 implies !((#[trigger] t[k]) is Running) by {
            assert(t[k] == ws[k + 1]);
        }
        assert(t[i - 1] == ws[i]);
        lemma_first_running_at(t, i - 1);
    }
}

/// The worker pool. The executable structure mirrors [`PoolModel`] field
/// for field; its view is that model.
pub struct ThreadPool {
    workers: Vec<WorkerState>,
    queue: Vec<Job>,
    log: Vec<JobRecord>,
    sender_live: bool,
}

impl View for ThreadPool {
    type V = PoolModel;

    closed spec fn view(&self) -> PoolModel {
        PoolModel {
            workers: self.workers@,
            queue: self.queue@,
            log: self.log@,
            sender_live: self.sender_live,
        }
    }
}

impl ThreadPool {
    /// Constructs a pool of exactly `size` running workers. A pool of size
    /// zero is a fatal precondition violation, so that input is excluded.
    pub fn new(size: usize) -> (pool: ThreadPool)
        requires
            1 <= size,
        ensures
            pool@ == spec_new(size as int),
    {
        let mut workers: Vec<WorkerState> = Vec::new();
        let mut i: usize = 0;
        while i < size
            invariant
                i <= size,
                workers@.len() == i,
                forall|k: int| 0 <= k < i ==> workers@[k] == WorkerState::Running,
            decreases size - i,
        {
            workers.push(WorkerState::Running);
            i = i + 1;
        }
        let pool = ThreadPool { workers, queue: Vec::new(), log: Vec::new(), sender_live: true };
        proof {
            assert(pool@ =~= spec_new(size as int));
        }
        pool
    }

    /// Does some worker still run? This is also the condition under which
    /// the receiving end of the queue is still held by anyone.
    pub fn has_running_worker(&self) -> (b: bool)
        ensures
            b == has_running(self@.workers),
    {
        let n = self.workers.len();
        let mut i: usize = 0;
        while i < n
            invariant
                i <= n,
                n == self@.workers.len(),
                forall|k: int| 0 <= k < i ==> !((#[trigger] self@.workers[k]) is Running),
            decreases n - i,
        {
            if self.workers[i] == WorkerState::Running {
                return true;
            }
            i = i + 1;
        }
        false
    }

    /// Looks for the lowest-numbered worker that is still running, the one
    /// that takes the next job when the queue is drained.
    fn find_running(&self) -> (r: Option<usize>)
        ensures
            (match r {
                Some(w) => w < self@.workers.len() && self@.workers[w as int] is Running
                    && w as int == first_running(self@.workers),
                None => !has_running(self@.workers),
            }),
    {
        let n = self.workers.len();
        let mut i: usize = 0;
        while i < n
            invariant
                i <= n,
                n == self@.workers.len(),
                forall|k: int| 0 <= k < i ==> !((#[trigger] self@.workers[k]) is Running),
            decreases n - i,
        {
            if self.workers[i] == WorkerState::Running {
                proof {
                    lemma_first_running_at(self@.workers, i as int);
                }
                return Some(i);
            }
            i = i + 1;
        }
        None
    }

    /// One scheduling step: worker `w` takes and runs the job at the head
    /// of the queue, if `w` is running and a job is queued; otherwise the
    /// pool is left unchanged.
    pub fn step_worker(&mut self, w: usize)
        requires
            w < old(self)@.workers.len(),
        ensures
            final(self)@ == spec_step(old(self)@, w as int),
    {
        if self.workers[w] == WorkerState::Running && self.queue.len() > 0 {
            let job = self.queue.remove(0);
            match &job.outcome {
                JobOutcome::Panics => {
                    self.workers[w] = WorkerState::Stopped(ExitReason::JobPanicked);
                },
                JobOutcome::Succeeds => {
                    self.log.push(JobRecord { id: job.id, ok: true });
                },
                JobOutcome::Fails(_) => {
                    self.log.push(JobRecord { id: job.id, ok: false });
                },
            }
            proof {
                assert(old(self)@.queue.remove(0) =~= old(self)@.queue.drop_first());
                assert(self@ =~= spec_step(old(self)@, w as int));
            }
        } else {
            proof {
                assert(self@ =~= spec_step(old(self)@, w as int));
            }
        }
    }

    /// Synchronous teardown. Closes the sending side first, so nothing new
    /// can be queued; the surviving workers then drain every job that is
    /// still queued; finally every worker that is still running observes
    /// the closed channel and stops. The call returns only when every
    /// worker has stopped.
    pub fn shutdown(&mut self)
        ensures
            final(self)@ == spec_shutdown(old(self)@),
    {
        self.sender_live = false;
        let ghost m1 = self@;
        proof {
            assert(m1 =~= (PoolModel { sender_live: false, ..old(self)@ }));
        }
        let mut done: bool = false;
        while !done
            invariant
                self@.sender_live == false,
                spec_drain(self@) == spec_drain(m1),
                done ==> self@.queue.len() == 0,
            decreases (if done {
                0int
            } else {
                self@.queue.len() + 1int
            }),
        {
            if self.queue.len() == 0 {
                done = true;
            } else {
                let found = self.find_running();
                match found {
                    Some(w) => {
                        let ghost pre = self@;
                        proof {
                            assert(has_running(pre.workers)) by {
                                assert(pre.workers[w as int] is Running);
                            }
                            assert(spec_drain(pre) == spec_drain(
                                run_job(pre, first_running(pre.workers)),
                            ));
                        }
                        self.step_worker(w);
                        proof {
                            assert(self@ == run_job(pre, w as int));
                        }
                    },
                    None => {
                        let ghost pre = self@;
                        self.queue.clear();
                        done = true;
                        proof {
                            assert(self@ =~= (PoolModel { queue: Seq::empty(), ..pre }));
                            assert(spec_drain(pre) == self@);
                            assert(spec_drain(self@) == self@);
                        }
                    },
                }
            }
        }
        let ghost d = self@;
        proof {
            assert(spec_drain(d) == d);
        }
        let n = self.workers.len();
        let mut i: usize = 0;
        while i < n
            invariant
                i <= n,
                n == self@.workers.len(),
                d.workers.len() == n,
                forall|k: int|
                    0 <= k < i ==> (#[trigger] self@.workers[k]) == close_workers(d.workers)[k],
                forall|k: int| i <= k < n ==> (#[trigger] self@.workers[k]) == d.workers[k],
                self@.queue == d.queue,
                self@.log == d.log,
                self@.sender_live == d.sender_live,
            decreases n - i,
        {
            if self.workers[i] == WorkerState::Running {
                self.workers[i] = WorkerState::Stopped(ExitReason::ChannelClosed);
            }
            i = i + 1;
        }
        proof {
            assert(self@.workers =~= close_workers(d.workers));
            assert(self@ =~= spec_shutdown(old(self)@));
        }
    }

    /// Fire-and-forget submission: queues the job when the pool can still
    /// deliver it, silently drops it otherwise. Never blocks the caller and
    /// never reports an outcome.
    pub fn execute(&mut self, job: Job)
        ensures
            final(self)@ == spec_execute(old(self)@, job),
    {
        if self.sender_live && self.has_running_worker() {
            self.queue.push(job);
        }
        proof {
            assert(self@ =~= spec_execute(old(self)@, job));
        }
    }

    /// How many workers the pool was built with, running or stopped.
    pub fn worker_count(&self) -> (n: usize)
        ensures
            n == self@.workers.len(),
    {
        self.workers.len()
    }

    /// The lifecycle state of worker `i`.
    pub fn worker_state(&self, i: usize) -> (s: WorkerState)
        requires
            i < self@.workers.len(),
        ensures
            s == self@.workers[i as int],
    {
        self.workers[i]
    }

    /// How many submitted jobs have not been taken by a worker yet.
    pub fn pending_count(&self) -> (n: usize)
        ensures
            n == self@.queue.len(),
    {
        self.queue.len()
    }

    /// The records of the jobs that ran, oldest first.
    pub fn records(&self) -> (r: &Vec<JobRecord>)
        ensures
            r@ == self@.log,
    {
        &self.log
    }

    /// Whether the sending side of the queue is still live, i.e. teardown
    /// has not begun.
    pub fn is_accepting(&self) -> (b: bool)
        ensures
            b == self@.sender_live,
    {
        self.sender_live
    }
}

} // verus!
