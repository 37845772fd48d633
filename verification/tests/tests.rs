use alternate_future::oneshot::Thunk;
use alternate_future::promise_future;
use alternate_future::spawn_future;
use alternate_future::AwaitError;
use alternate_future::Future;
use alternate_future::FutureState;
use alternate_future::PromiseValue;
use alternate_future::WaitOutcome;

fn wait_on<T: Send + Sync + 'static>(f: Future<T>) -> Result<T, AwaitError> {
    let mut fut = f;
    loop {
        let (tx, rx) = std::sync::mpsc::channel::<()>();
        let waker = Thunk::new(move || {
            let _ = tx.send(());
        });
        match fut.wait_step(waker) {
            WaitOutcome::Done(r) => return r,
            WaitOutcome::Pending(again) => {
                let _ = rx.recv();
                fut = again;
            },
        }
    }
}

fn brief_pause() {
    let start = std::time::Instant::now();
    while start.elapsed() < std::time::Duration::from_millis(100) {}
}

#[test]
fn present() {
    let f = Future::present(5);
    let i = wait_on(f).unwrap();

    assert_eq!(i, 5);
}

#[test]
fn fulfill() {
    let (p, f) = promise_future();

    let _ = spawn_future(move || {
        brief_pause();
        p.fulfill(5);
        0
    });

    let i: i32 = wait_on(f).unwrap();

    assert_eq!(i, 5);
}

#[test]
fn broken() {
    let (p, f) = promise_future::<i32>();

    let _ = spawn_future(move || {
        brief_pause();
        p.abandon();
        0
    });

    assert!(wait_on(f).is_err());
}

#[test]
fn early() {
    let (p, f) = promise_future();

    let _ = spawn_future(move || {
        p.fulfill(5);
        0
    });

    brief_pause();
    let i: i32 = wait_on(f).unwrap();

    assert_eq!(i, 5);
}

#[test]
fn chain() {
    let (p, f) = promise_future();
    let (witness, saw) = std::sync::mpsc::channel::<i32>();

    let _ = spawn_future(move || {
        brief_pause();
        p.fulfill(5);
        0
    });

    let chained = f.chain(move |i: i32| {
        let _ = witness.send(i);
        i * 2
    });
    let i: i32 = wait_on(chained).unwrap();

    // The continuation saw exactly the fulfilled value once; which thread
    // runs it is pinned by the library's own laws on dispatching.
    assert_eq!(saw.recv().unwrap(), 5);
    assert_eq!(i, 10);
}

#[test]
fn spawn() {
    assert_eq!(
        wait_on(spawn_future(|| {
            brief_pause();
            12
        }))
        .unwrap(),
        12
    );
}

#[test]
fn fulfill_then_wait_sequentially() {
    let (p, f) = promise_future();
    p.fulfill(41);
    assert_eq!(wait_on(f), Ok(41));
}

#[test]
fn abandon_then_wait_sequentially() {
    let (p, f) = promise_future::<u8>();
    p.abandon();
    assert_eq!(wait_on(f), Err(AwaitError::Broken));
}

#[test]
fn poll_consumes_once_and_caches() {
    let (p, f) = promise_future();
    let mut f = f;
    assert_eq!(f.poll(), FutureState::Impending);
    p.fulfill(7);
    assert_eq!(f.poll(), FutureState::Present);
    assert_eq!(f.poll(), FutureState::Present);
    assert_eq!(wait_on(f), Ok(7));
}

#[test]
fn poll_observes_abandonment() {
    let (p, f) = promise_future::<i32>();
    let mut f = f;
    p.abandon();
    assert_eq!(f.poll(), FutureState::Broken);
    assert_eq!(f.poll(), FutureState::Broken);
    assert_eq!(wait_on(f), Err(AwaitError::Broken));
}

#[test]
fn take_resets_the_slot() {
    let mut slot = PromiseValue::Present(3);
    assert!(matches!(slot.take(), PromiseValue::Present(3)));
    assert!(matches!(slot.take(), PromiseValue::Impending));
    assert!(matches!(slot, PromiseValue::Impending));
}

#[test]
fn chain_after_fulfillment() {
    let (p, f) = promise_future();
    p.fulfill(4);
    let chained = f.chain(|i: i32| i * 2);
    assert_eq!(wait_on(chained), Ok(8));
}

#[test]
fn chain_on_abandoned_source() {
    let (p, f) = promise_future::<i32>();
    p.abandon();
    let chained = f.chain(|i: i32| i + 1);
    assert_eq!(wait_on(chained), Err(AwaitError::Broken));
}

#[test]
fn ok_and_err_shorthands() {
    let (p, f) = promise_future::<Result<i32, String>>();
    p.ok(6);
    assert_eq!(wait_on(f), Ok(Ok(6)));

    let (p, f) = promise_future::<Result<i32, String>>();
    p.err(String::from("gone"));
    assert_eq!(wait_on(f), Ok(Err(String::from("gone"))));
}

#[test]
fn and_then_applies_and_short_circuits() {
    let (p, f) = promise_future::<Result<i32, String>>();
    p.ok(3);
    let chained = f.and_then(|v: i32| Ok::<i32, String>(v * 3));
    assert_eq!(wait_on(chained), Ok(Ok(9)));

    let (p, f) = promise_future::<Result<i32, String>>();
    p.err(String::from("upstream"));
    let chained = f.and_then(|v: i32| Ok::<i32, String>(v * 3));
    assert_eq!(wait_on(chained), Ok(Err(String::from("upstream"))));
}

#[test]
fn error_description() {
    assert_eq!(AwaitError::Broken.description(), "Broken future");
}

#[test]
fn poll_races_fulfillment() {
    let (p, f) = promise_future();

    let _ = spawn_future(move || {
        brief_pause();
        p.fulfill(9);
        0
    });

    let mut f = f;
    loop {
        match f.poll() {
            FutureState::Impending => {},
            FutureState::Present => break,
            FutureState::Broken => panic!("the producer never abandons"),
        }
    }
    // The one poll that observed the transition consumed the slot; every
    // later poll repeats the same terminal answer from the cache.
    assert_eq!(f.poll(), FutureState::Present);
    assert_eq!(f.poll(), FutureState::Present);
    assert_eq!(wait_on(f), Ok(9));
}

#[test]
fn chain_twice_transforms_in_order() {
    let (p, f) = promise_future();
    let chained = f.chain(|i: i32| i + 1).chain(|i: i32| i * 2);
    p.fulfill(3);
    assert_eq!(wait_on(chained), Ok(8));
}

#[test]
fn abandon_after_chain_breaks_downstream() {
    let (p, f) = promise_future::<i32>();
    let chained = f.chain(|i: i32| i + 1);
    p.abandon();
    assert_eq!(wait_on(chained), Err(AwaitError::Broken));
}

#[test]
fn abandon_after_chain_breaks_the_whole_chain() {
    let (p, f) = promise_future::<i32>();
    let chained = f.chain(|i: i32| i + 1).chain(|i: i32| i * 2);
    p.abandon();
    assert_eq!(wait_on(chained), Err(AwaitError::Broken));
}

#[derive(Debug, PartialEq)]
struct TaskError(&'static str);

impl From<AwaitError> for TaskError {
    fn from(_: AwaitError) -> TaskError {
        TaskError("producer vanished")
    }
}

#[test]
fn fold_broken_folds_each_case() {
    assert_eq!(alternate_future::fold_broken::<i32, TaskError>(Ok(Ok(1))), Ok(1));
    assert_eq!(
        alternate_future::fold_broken::<i32, TaskError>(Ok(Err(TaskError("stage failed")))),
        Err(TaskError("stage failed"))
    );
    assert_eq!(
        alternate_future::fold_broken::<i32, TaskError>(Err(AwaitError::Broken)),
        Err(TaskError("producer vanished"))
    );
}
