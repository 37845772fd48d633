use alternate_future::spawn_future;
use alternate_future::threadpool::next_job;
use alternate_future::threadpool::JobQueue;
use alternate_future::threadpool::Sentinel;
use alternate_future::threadpool::ThreadPool;
use alternate_future::threadpool::WorkerEvent;
use alternate_future::threadpool::WorkerState;
use std::sync::mpsc::channel;
use std::sync::mpsc::Sender;
use std::time::Duration;

/// Test-side worker driver: drains the queue like a pool worker would, with
/// a guard that respawns a replacement if a job panics out of the loop.
struct Guard {
    sentinel: Option<Sentinel<JobQueue>>,
}

impl Drop for Guard {
    fn drop(&mut self) {
        if let Some(sentinel) = self.sentinel.take() {
            if sentinel.should_respawn() {
                run_worker(sentinel.into_queue());
            }
        }
    }
}

fn run_worker(queue: JobQueue) {
    let _ = spawn_future(move || {
        let mut guard = Guard { sentinel: Some(Sentinel::new(queue)) };
        loop {
            let job = next_job(guard.sentinel.as_ref().unwrap().queue_handle());
            match job {
                Some(job) => job.run(),
                None => break,
            }
        }
        if let Some(mut sentinel) = guard.sentinel.take() {
            sentinel.cancel();
        }
        0
    });
}

fn signalling_job(tx: Sender<&'static str>, tag: &'static str) -> impl FnOnce() + Send + Sync + 'static {
    move || {
        let _ = tx.send(tag);
    }
}

#[test]
fn overflow_never_blocks_and_still_runs() {
    // One worker slot, no worker draining: the first job fills the queue,
    // the second overflows onto a one-off thread and still completes.
    let (pool, queue) = ThreadPool::new(1);
    let (tx, rx) = channel();
    pool.execute(signalling_job(tx.clone(), "queued"));
    pool.execute(signalling_job(tx.clone(), "overflow"));
    assert_eq!(rx.recv_timeout(Duration::from_secs(5)).unwrap(), "overflow");

    // The queued job was not lost: draining the queue runs it.
    let job = next_job(&queue).unwrap();
    job.run();
    assert_eq!(rx.recv_timeout(Duration::from_secs(5)).unwrap(), "queued");
}

#[test]
fn closed_queue_still_runs_jobs() {
    let (pool, queue) = ThreadPool::new(1);
    drop(queue);
    let (tx, rx) = channel();
    pool.execute(signalling_job(tx, "homeless"));
    assert_eq!(rx.recv_timeout(Duration::from_secs(5)).unwrap(), "homeless");
}

#[test]
fn pool_runs_jobs_through_workers() {
    let (pool, queue) = ThreadPool::new(2);
    run_worker(queue.clone());
    run_worker(queue);
    let (tx, rx) = channel();
    for _ in 0..6 {
        pool.execute(signalling_job(tx.clone(), "done"));
    }
    for _ in 0..6 {
        assert_eq!(rx.recv_timeout(Duration::from_secs(5)).unwrap(), "done");
    }
}

#[test]
fn aborted_job_does_not_shrink_the_pool() {
    let (pool, queue) = ThreadPool::new(1);
    run_worker(queue);
    let (tx, rx) = channel();

    pool.execute(|| panic!("job aborts abnormally"));
    // Give the worker time to die and its guard time to respawn a
    // replacement, then prove a worker is still draining the queue.
    let start = std::time::Instant::now();
    while start.elapsed() < Duration::from_millis(200) {}
    pool.execute(signalling_job(tx, "survivor"));
    assert_eq!(rx.recv_timeout(Duration::from_secs(5)).unwrap(), "survivor");
}

#[test]
fn worker_life_cycle() {
    let running = WorkerState::Running;
    let executing = alternate_future::threadpool::worker_step(running, WorkerEvent::JobReceived);
    assert_eq!(executing, WorkerState::Executing);
    assert_eq!(
        alternate_future::threadpool::worker_step(executing, WorkerEvent::JobFinished),
        WorkerState::Running
    );
    assert_eq!(
        alternate_future::threadpool::worker_step(running, WorkerEvent::QueueClosed),
        WorkerState::Terminated
    );
    assert_eq!(
        alternate_future::threadpool::worker_step(executing, WorkerEvent::JobAborted),
        WorkerState::Terminated
    );
}

#[test]
fn sentinel_arms_and_cancels() {
    let mut sentinel = Sentinel::new(0u8);
    assert!(sentinel.should_respawn());
    sentinel.cancel();
    assert!(!sentinel.should_respawn());
    assert_eq!(sentinel.into_queue(), 0u8);
}
