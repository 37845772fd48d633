//! A fixed-size pool of long-lived worker threads draining a bounded job
//! queue, with overflow dispatch and a self-healing worker protocol.
//!
//! `execute` never blocks the caller: a job finding the queue full (or its
//! receiving side gone) is run on a freshly spawned one-off thread instead.
//! Each worker wraps its draining loop in a [`Sentinel`]; a job that aborts
//! abnormally leaves the sentinel armed, which tells the guard tearing the
//! worker down to spawn a replacement, while a graceful shutdown cancels
//! the sentinel first. The queue itself is std's bounded channel behind a
//! lock; the draining loop — a blocking receive repeated until the channel
//! closes — and the unwind guard around it are the embedding program's,
//! driven by the steps and decisions verified here.

use vstd::prelude::*;
use vstd::*;
use std::sync::Arc;
use std::sync::Mutex;
use std::sync::mpsc::Receiver;
use std::sync::mpsc::SyncSender;

use crate::oneshot::Thunk;

verus! {

#[verifier::external_type_specification]
#[verifier::external_body]
#[verifier::reject_recursive_types(T)]
pub struct ExSyncSender<T>(SyncSender<T>);

#[verifier::external_type_specification]
#[verifier::external_body]
#[verifier::reject_recursive_types(T)]
pub struct ExReceiver<T>(Receiver<T>);

#[verifier::external_type_specification]
#[verifier::external_body]
#[verifier::reject_recursive_types(T)]
pub struct ExMutex<T: ?Sized>(Mutex<T>);

/// The shared receiving end of the pool's job queue: one receiver behind a
/// lock, drained by every worker in turn.
pub type JobQueue = Arc<Mutex<Receiver<Thunk>>>;

/// The bound a job queue was created with: how many jobs its channel
/// holds before an offer reports the queue full.
pub uninterp spec fn bound_of(queue: JobQueue) -> nat;

/// The queue end that came out of the same channel as this sender: what
/// ties a pool handle to the receiving end it feeds.
pub uninterp spec fn queue_of(sender: SyncSender<Thunk>) -> JobQueue;

/// Relies on `std::sync::mpsc::sync_channel`: the two ends of one fresh
/// bounded channel, whose sending side accepts `capacity` queued items
/// before reporting itself full. The receiver is returned behind a fresh
/// lock for the workers to share.
#[verifier::external_body]
fn new_job_channel(capacity: usize) -> (r: (SyncSender<Thunk>, JobQueue))
    ensures
        bound_of(r.1) == capacity as nat,
        queue_of(r.0) == r.1,
{
    let (tx, rx) = std::sync::mpsc::sync_channel::<Thunk>(capacity);
    (tx, Arc::new(Mutex::new(rx)))
}

/// What the queue answered when a job was offered to it.
pub enum SendOutcome {
    /// The job sits in the queue; a worker will drain it.
    Sent,
    /// The queue was full; the job comes back untouched.
    Full(Thunk),
    /// The receiving side is gone; the job comes back untouched.
    Closed(Thunk),
}

/// Relies on `std::sync::mpsc::SyncSender::try_send`: a non-blocking offer
/// that either queues the job or returns it unchanged inside the error
/// (`TrySendError::Full` or `TrySendError::Disconnected`).
#[verifier::external_body]
fn try_send_job(sender: &SyncSender<Thunk>, job: Thunk) -> (r: SendOutcome)
    ensures
        match r {
            SendOutcome::Sent => true,
            SendOutcome::Full(j) => j == job,
            SendOutcome::Closed(j) => j == job,
        },
{
    match sender.try_send(job) {
        Ok(()) => SendOutcome::Sent,
        Err(std::sync::mpsc::TrySendError::Full(j)) => SendOutcome::Full(j),
        Err(std::sync::mpsc::TrySendError::Disconnected(j)) => SendOutcome::Closed(j),
    }
}

/// Relies on `std::sync::Mutex::lock` and `std::sync::mpsc::Receiver::recv`:
/// blocks until a job arrives (`Some`) or until the channel has closed —
/// every sender dropped — or the lock is poisoned (`None`). Which job
/// arrives depends on the other workers, so nothing more is promised.
#[verifier::external_body]
pub fn next_job(queue: &JobQueue) -> (r: Option<Thunk>) {
    match queue.lock() {
        Ok(receiver) => receiver.recv().ok(),
        Err(_) => None,
    }
}

/// Where `execute` sends a job, once the queue has answered: into the
/// queue, or onto a fresh one-off thread. There is no third way — the
/// caller is never blocked and the job is never dropped.
pub enum JobRoute {
    Queued,
    Detached(Thunk),
}

/// The pool's backpressure policy: a queued job stays queued; a job the
/// queue refused — full, or its receiving side gone — runs detached.
pub open spec fn spec_route(outcome: SendOutcome) -> JobRoute {
    match outcome {
        SendOutcome::Sent => JobRoute::Queued,
        SendOutcome::Full(j) => JobRoute::Detached(j),
        SendOutcome::Closed(j) => JobRoute::Detached(j),
    }
}

fn route(outcome: SendOutcome) -> (r: JobRoute)
    ensures
        r == spec_route(outcome),
{
    match outcome {
        SendOutcome::Sent => JobRoute::Queued,
        SendOutcome::Full(j) => JobRoute::Detached(j),
        SendOutcome::Closed(j) => JobRoute::Detached(j),
    }
}

/// Backpressure never loses work: whatever the queue answers about a job,
/// the job is either in the queue or handed whole to a detached thread;
/// no answer leaves the caller blocked or the job dropped.
pub proof fn lemma_backpressure_never_drops(job: Thunk)
    ensures
        spec_route(SendOutcome::Sent) == JobRoute::Queued,
        spec_route(SendOutcome::Full(job)) == JobRoute::Detached(job),
        spec_route(SendOutcome::Closed(job)) == JobRoute::Detached(job),
{
}

/// The sending half of the pool: a handle that offers jobs to the bounded
/// queue and spills them onto one-off threads when the queue is full.
pub struct ThreadPool {
    jobs: SyncSender<Thunk>,
}

impl ThreadPool {
    /// The shared receiving end this pool's sender feeds.
    pub closed spec fn spec_queue(&self) -> JobQueue {
        queue_of(self.jobs)
    }

    /// Lays out a pool for `threads` long-lived workers: a bounded job
    /// queue with one slot per worker, returned as the pool handle and
    /// the shared receiving end. The workers themselves — each an
    /// unbounded blocking loop around [`next_job`] under a [`Sentinel`]
    /// guard — are started by the embedding program, which owns thread
    /// teardown and unwind handling.
    pub fn new(threads: usize) -> (r: (ThreadPool, JobQueue))
        requires
            threads >= 1,
        ensures
            bound_of(r.1) == threads as nat,
            r.0.spec_queue() == r.1,
    {
        let (tx, rx) = new_job_channel(threads);
        (ThreadPool { jobs: tx }, rx)
    }

    /// Hands `job` to the pool without ever blocking the caller: queued if
    /// the bounded queue has room, and otherwise run on a freshly spawned
    /// one-off thread, so that an accepted job always runs to completion
    /// somewhere (see [`spec_route`]).
    pub fn execute<F>(&self, job: F) where F: FnOnce() + Send + Sync + 'static
        requires
            job.requires(()),
    {
        let thunk = Thunk::new(job);
        match route(try_send_job(&self.jobs, thunk)) {
            JobRoute::Queued => (),
            JobRoute::Detached(t) => {
                let _ = thread::spawn(move || t.run());
            },
        }
    }
}

/// A worker thread's place in its life cycle: waiting on the queue,
/// running a job, or gone.
#[derive(Copy, Clone, PartialEq, Eq, Structural, Debug)]
pub enum WorkerState {
    Running,
    Executing,
    Terminated,
}

/// What just happened to a worker thread.
#[derive(Copy, Clone, PartialEq, Eq, Structural, Debug)]
pub enum WorkerEvent {
    JobReceived,
    JobFinished,
    QueueClosed,
    JobAborted,
}

/// The worker life cycle: `Running` takes a received job to `Executing`
/// and back on completion; a closed queue ends a `Running` worker
/// gracefully; a job aborting abnormally ends an `Executing` worker.
/// Any other pairing leaves the state alone.
pub open spec fn spec_worker_step(state: WorkerState, event: WorkerEvent) -> WorkerState {
    match (state, event) {
        (WorkerState::Running, WorkerEvent::JobReceived) => WorkerState::Executing,
        (WorkerState::Executing, WorkerEvent::JobFinished) => WorkerState::Running,
        (WorkerState::Running, WorkerEvent::QueueClosed) => WorkerState::Terminated,
        (WorkerState::Executing, WorkerEvent::JobAborted) => WorkerState::Terminated,
        (_, _) => state,
    }
}

/// One transition of a worker's life cycle, for the loop that drives a
/// worker thread.
pub fn worker_step(state: WorkerState, event: WorkerEvent) -> (next: WorkerState)
    ensures
        next == spec_worker_step(state, event),
{
    match (state, event) {
        (WorkerState::Running, WorkerEvent::JobReceived) => WorkerState::Executing,
        (WorkerState::Executing, WorkerEvent::JobFinished) => WorkerState::Running,
        (WorkerState::Running, WorkerEvent::QueueClosed) => WorkerState::Terminated,
        (WorkerState::Executing, WorkerEvent::JobAborted) => WorkerState::Terminated,
        (s, _) => s,
    }
}

/// The guard a worker arms before draining the queue. It stays armed while
/// jobs run, so a worker torn down abnormally is replaced; draining to a
/// graceful end cancels it first, so shutdown spawns nothing.
pub struct Sentinel<Q> {
    jobs: Q,
    active: bool,
}

impl<Q> Sentinel<Q> {
    /// The sentinel still calls for a replacement worker.
    pub closed spec fn is_active(&self) -> bool {
        self.active
    }

    /// The queue handle a replacement worker would drain.
    pub closed spec fn queue(&self) -> Q {
        self.jobs
    }

    /// Arms a sentinel over the queue a replacement would need.
    pub fn new(jobs: Q) -> (s: Sentinel<Q>)
        ensures
            s.is_active(),
            s.queue() == jobs,
    {
        Sentinel { jobs, active: true }
    }

    /// Disarms the sentinel: the worker is shutting down gracefully and
    /// must not be replaced.
    pub fn cancel(&mut self)
        ensures
            !final(self).is_active(),
            final(self).queue() == old(self).queue(),
    {
        self.active = false;
    }

    /// Whether the worker tearing this sentinel down must spawn a
    /// replacement over [`Sentinel::queue`].
    pub fn should_respawn(&self) -> (b: bool)
        ensures
            b == self.is_active(),
    {
        self.active
    }

    /// The queue this worker drains.
    pub fn queue_handle(&self) -> (q: &Q)
        ensures
            *q == self.queue(),
    {
        &self.jobs
    }

    /// Hands the queue back, for the replacement worker.
    pub fn into_queue(self) -> (q: Q)
        ensures
            q == self.queue(),
    {
        self.jobs
    }
}

/// How many workers the pool has once one exits, counting the replacement
/// its sentinel may call for.
pub open spec fn spec_workers_after_exit(workers: nat, respawn: bool) -> nat {
    if respawn {
        workers
    } else {
        (workers - 1) as nat
    }
}

/// Resilience: a job aborting abnormally drives its worker to
/// `Terminated` while the sentinel is still armed, so the teardown spawns
/// a replacement and the pool's long-term worker count is unchanged; only
/// a graceful shutdown, which cancels the sentinel first, lets the count
/// drop.
pub proof fn lemma_pool_resilience<Q>(guard: Sentinel<Q>, workers: nat)
    requires
        guard.is_active(),
        workers >= 1,
    ensures
        spec_worker_step(WorkerState::Executing, WorkerEvent::JobAborted) is Terminated,
        spec_workers_after_exit(workers, guard.is_active()) == workers,
        spec_worker_step(WorkerState::Running, WorkerEvent::QueueClosed) is Terminated,
{
}

} // verus!
