//! A minimal concurrency toolkit: a single-producer/single-consumer
//! promise/future pair built around a lock-protected shared cell, and a
//! bounded, self-healing thread pool for running work off the calling
//! thread.
//!
//! A producer obtains a pair, does its work and fulfills the promise;
//! the consumer polls the future, blocks on it step by step, or chains a
//! continuation onto it. Whichever side acts second drives the handoff.

use vstd::prelude::*;
use vstd::rwlock::RwLock;
use vstd::rwlock::RwLockPredicate;
use std::sync::Arc;
use vstd::*;

pub mod cell;
pub mod laws;
pub mod oneshot;
pub mod threadpool;

pub use cell::PromiseValue;

use cell::CellState;
use cell::ChainAction;
use cell::FulfillAction;
use cell::WaitStep;
use oneshot::Continuation;
use oneshot::Thunk;
use vstd::std_specs::convert::FromSpec;

verus! {

/// What awaiting a future yields: the produced value, or the one error
/// this library defines.
pub type AwaitResult<T> = Result<T, AwaitError>;

/// The only failure a future can report: its promise was discarded
/// without being fulfilled.
#[derive(Copy, Clone, PartialEq, Eq, Structural, Debug)]
pub enum AwaitError {
    Broken,
}

impl AwaitError {
    /// A short account of the failure, for embedding in other error text.
    pub fn description(&self) -> (s: &'static str)
        ensures
            s@ == "Broken future"@,
    {
        "Broken future"
    }
}

/// What a non-blocking poll of a future reports.
#[derive(Copy, Clone, PartialEq, Eq, Structural, Debug)]
pub enum FutureState {
    Impending,
    Present,
    Broken,
}

/// The invariant a shared cell keeps whenever its lock is free:
/// see [`CellState::wf`].
pub struct CellPred;

impl<T> RwLockPredicate<CellState<T>> for CellPred {
    open spec fn inv(self, s: CellState<T>) -> bool {
        s.wf()
    }
}

/// The lock around the state shared by one promise/future pair.
pub type CellLock<T> = RwLock<CellState<T>, CellPred>;

/// Relies on `Arc::clone` from std: a clone is a second handle to the same
/// shared allocation, carrying the same value.
#[verifier::external_body]
fn arc_clone<T>(a: &Arc<T>) -> (r: Arc<T>)
    ensures
        r == *a,
{
    Arc::clone(a)
}

/// The write-once producer handle of a promise/future pair. It must be
/// consumed exactly once, by [`Promise::fulfill`] (or its `ok`/`err`
/// shorthands) or by [`Promise::abandon`]; a promise discarded without
/// either leaves its consumer pending forever.
#[must_use]
#[verifier::reject_recursive_types(T)]
pub struct Promise<T> {
    cell: Arc<CellLock<T>>,
    inline: bool,
}

/// The read handle observing a promise's eventual result: still awaiting
/// its shared cell, or already collapsed to a terminal value or to the
/// broken mark.
#[verifier::reject_recursive_types(T)]
pub struct Future<T> {
    inner: FutureInner<T>,
}

#[verifier::reject_recursive_types(T)]
enum FutureInner<T> {
    Impending(Arc<CellLock<T>>),
    Present(T),
    Broken,
}

impl<T> Promise<T> {
    /// Whether a continuation found by `fulfill` runs on the fulfilling
    /// thread itself rather than on a freshly dispatched one.
    pub closed spec fn is_inline(&self) -> bool {
        self.inline
    }

    /// The lock of the cell this promise resolves.
    pub closed spec fn lock(&self) -> CellLock<T> {
        *self.cell
    }
}

impl<T> Future<T> {
    /// The future still awaits its shared cell.
    pub closed spec fn is_impending(&self) -> bool {
        self.inner is Impending
    }

    /// The future has collapsed to a produced value.
    pub closed spec fn is_present(&self) -> bool {
        self.inner is Present
    }

    /// The future has collapsed to the broken mark.
    pub closed spec fn is_broken(&self) -> bool {
        self.inner is Broken
    }

    /// The value a collapsed future holds.
    pub closed spec fn spec_value(&self) -> T
        recommends
            self.is_present(),
    {
        self.inner->Present_0
    }

    /// The lock of the cell a still-impending future awaits.
    pub closed spec fn lock(&self) -> CellLock<T>
        recommends
            self.is_impending(),
    {
        *self.inner->Impending_0
    }
}

fn make_pair<T>(inline: bool) -> (r: (Promise<T>, Future<T>))
    ensures
        r.0.is_inline() == inline,
        r.1.is_impending(),
        r.0.lock() == r.1.lock(),
{
    let state = CellState::<T>::new();
    let lock = Arc::new(CellLock::new(state, Ghost(CellPred)));
    let other = arc_clone(&lock);
    (Promise { cell: lock, inline }, Future { inner: FutureInner::Impending(other) })
}

/// Allocates a fresh shared cell in its pending state and returns the two
/// handles to it. A continuation chained onto this future is dispatched to
/// a fresh thread when the promise is fulfilled, never run on the
/// fulfilling thread.
pub fn promise_future<T>() -> (r: (Promise<T>, Future<T>))
    ensures
        !r.0.is_inline(),
        r.1.is_impending(),
        r.0.lock() == r.1.lock(),
{
    make_pair(false)
}

/// The pair constructor used when chaining: a continuation fulfilling this
/// promise runs on the thread that calls `fulfill`, which is already off
/// the first producer's critical path.
fn continue_future<T>() -> (r: (Promise<T>, Future<T>))
    ensures
        r.0.is_inline(),
        r.1.is_impending(),
        r.0.lock() == r.1.lock(),
{
    make_pair(true)
}

impl<T: Send + Sync + 'static> Promise<T> {
    /// Resolves the shared cell with `val`, consuming the promise. Under
    /// the cell's lock, exactly one of two things happens (see
    /// [`cell::spec_fulfill`]): a continuation chained by the consumer is
    /// removed and then run with `val` — on this thread for an inline
    /// (chained) promise, on a freshly dispatched thread otherwise — or
    /// the value is stored and the consumer's recorded wake signal, if
    /// any, is fired.
    pub fn fulfill(self, val: T) {
        let (mut state, handle) = self.cell.acquire_write();
        let action = cell::fulfill_step(&mut state, val, self.inline);
        handle.release_write(state);
        match action {
            FulfillAction::RunInline(cont, v) => cont.invoke(Some(v)),
            FulfillAction::Dispatch(cont, v) => {
                let _ = thread::spawn(move || cont.invoke(Some(v)));
            },
            FulfillAction::Wake(Some(waker)) => waker.run(),
            FulfillAction::Wake(None) => (),
        }
    }

    /// Marks the shared cell broken, consuming the promise: how a producer
    /// that will never deliver steps aside. Under the cell's lock the slot
    /// turns `Broken` (see [`cell::spec_abandon`]); the consumer's recorded
    /// wake signal, if any, is fired, and a stored continuation is told
    /// that no value will come — its computing stage never runs, and the
    /// brokenness passes to its own downstream promise instead.
    pub fn abandon(self) {
        let (mut state, handle) = self.cell.acquire_write();
        let (cont, waiter) = cell::abandon_step(&mut state);
        handle.release_write(state);
        match waiter {
            Some(waker) => waker.run(),
            None => (),
        }
        match cont {
            Some(cont) => cont.invoke(None),
            None => (),
        }
    }
}

impl<T: Send + Sync + 'static, E: Send + Sync + 'static> Promise<Result<T, E>> {
    /// Shorthand: fulfill with `Ok(val)`.
    #[inline]
    pub fn ok(self, val: T) {
        self.fulfill(Ok(val));
    }

    /// Shorthand: fulfill with `Err(err)`.
    #[inline]
    pub fn err(self, err: E) {
        self.fulfill(Err(err));
    }
}

impl<T> Future<T> {
    /// A pre-resolved future: awaiting it yields `val` without ever
    /// touching a lock.
    pub fn present(val: T) -> (f: Future<T>)
        ensures
            f.is_present(),
            f.spec_value() == val,
    {
        Future { inner: FutureInner::Present(val) }
    }

    /// A future already known broken.
    pub fn broken() -> (f: Future<T>)
        ensures
            f.is_broken(),
    {
        Future { inner: FutureInner::Broken }
    }

    /// Non-blocking check. A future that has already collapsed reports its
    /// terminal state unchanged, without locking; an impending one takes
    /// the shared slot under the lock and, if a value or the broken mark
    /// had arrived, collapses to it — caching the outcome, so that exactly
    /// one poll consumes the slot and every later poll repeats the same
    /// terminal answer.
    pub fn poll(&mut self) -> (state: FutureState)
        ensures
            state == FutureState::Impending <==> final(self).is_impending(),
            state == FutureState::Present <==> final(self).is_present(),
            state == FutureState::Broken <==> final(self).is_broken(),
            old(self).is_present() || old(self).is_broken() || final(self).is_impending()
                ==> *final(self) == *old(self),
            old(self).is_present() ==> state == FutureState::Present,
            old(self).is_broken() ==> state == FutureState::Broken,
    {
        let taken = match &self.inner {
            FutureInner::Impending(lock) => {
                let (mut state, handle) = lock.acquire_write();
                let taken = cell::poll_step(&mut state);
                handle.release_write(state);
                taken
            },
            FutureInner::Present(_) => {
                return FutureState::Present;
            },
            FutureInner::Broken => {
                return FutureState::Broken;
            },
        };
        self.collapse(taken)
    }

    /// Caches what a poll took from the shared slot: the one delivery of a
    /// value or of the broken mark collapses the future for good, and an
    /// empty take leaves it untouched.
    fn collapse(&mut self, taken: PromiseValue<T>) -> (state: FutureState)
        ensures
            taken matches PromiseValue::Present(v) ==> state == FutureState::Present
                && final(self).is_present() && final(self).spec_value() == v,
            taken is Broken ==> state == FutureState::Broken && final(self).is_broken(),
            taken is Impending ==> state == FutureState::Impending
                && *final(self) == *old(self),
    {
        match taken {
            PromiseValue::Impending => FutureState::Impending,
            PromiseValue::Present(v) => {
                self.inner = FutureInner::Present(v);
                FutureState::Present
            },
            PromiseValue::Broken => {
                self.inner = FutureInner::Broken;
                FutureState::Broken
            },
        }
    }
}

/// What a future that has collapsed must answer to a waiting consumer:
/// its value, the broken mark's error — or nothing yet, while impending.
pub open spec fn spec_ready<T>(f: Future<T>) -> Option<AwaitResult<T>> {
    if f.is_present() {
        Some(Ok(f.spec_value()))
    } else if f.is_broken() {
        Some(Err(AwaitError::Broken))
    } else {
        None
    }
}

/// What one blocking-wait attempt yields: a settled result, or the future
/// handed back with the caller's wake signal now recorded in the cell —
/// the caller should block until that signal fires, then try again.
#[verifier::reject_recursive_types(T)]
pub enum WaitOutcome<T> {
    Done(AwaitResult<T>),
    Pending(Future<T>),
}

impl<T: Send + Sync + 'static> Future<T> {
    /// One attempt of the blocking wait, the locked section of an await
    /// loop. A collapsed future answers immediately; an impending one
    /// takes the shared slot under the lock (see [`cell::spec_wait`]):
    /// a present value yields `Ok`, a broken mark yields the error, and a
    /// still-pending slot records `waker` — to be fired exactly once by
    /// `fulfill` or `abandon` — and hands the future back for the caller
    /// to block and retry. Waiting is single-consumer: the wait loop
    /// around this step must be the only holder of the future.
    pub fn wait_step(self, waker: Thunk) -> (r: WaitOutcome<T>)
        ensures
            spec_ready(self) matches Some(res) ==> r == WaitOutcome::<T>::Done(res),
            self.is_impending() <==> spec_ready(self) is None,
            r matches WaitOutcome::Pending(f) ==> self.is_impending() && f.is_impending()
                && f.lock() == self.lock(),
    {
        match self.inner {
            FutureInner::Present(v) => WaitOutcome::Done(Ok(v)),
            FutureInner::Broken => WaitOutcome::Done(Err(AwaitError::Broken)),
            FutureInner::Impending(lock) => {
                let (mut state, handle) = lock.acquire_write();
                let step = cell::wait_step(&mut state, waker);
                handle.release_write(state);
                match step {
                    WaitStep::Ready(res) => WaitOutcome::Done(res),
                    WaitStep::Park => WaitOutcome::Pending(
                        Future { inner: FutureInner::Impending(lock) },
                    ),
                }
            },
        }
    }

    /// Registers `cont` to run on this future's value, returning the
    /// future of its result. The continuation of a still-pending future is
    /// stored in the cell (see [`cell::spec_chain`]) for the producer to
    /// run when it fulfills; a value that is already there is handed to
    /// the continuation on a freshly dispatched thread; a broken future
    /// yields a broken future at once — a continuation never runs on a
    /// broken source. Chaining never blocks the calling thread.
    pub fn chain<F, U>(self, cont: F) -> (r: Future<U>)
        where F: FnOnce(T) -> U + Send + Sync + 'static, U: Send + Sync + 'static,
        requires
            forall|v: T| cont.requires((v,)),
        ensures
            self.is_broken() ==> r.is_broken(),
            self.is_present() ==> r.is_impending(),
            !r.is_present(),
    {
        match self.inner {
            FutureInner::Impending(lock) => {
                let (p, f) = continue_future::<U>();
                let wrapped = Continuation::<T>::new(
                    (move |val: Option<T>| -> ()
                        requires
                            forall|x: T| cont.requires((x,)),
                    {
                        match val {
                            Some(v) => {
                                let u = cont(v);
                                p.fulfill(u);
                            },
                            None => p.abandon(),
                        }
                    }),
                );
                let (mut state, handle) = lock.acquire_write();
                let action = cell::chain_step(&mut state, wrapped);
                handle.release_write(state);
                match action {
                    ChainAction::Stored => f,
                    ChainAction::Run(c, v) => {
                        let _ = thread::spawn(move || c.invoke(Some(v)));
                        f
                    },
                    ChainAction::Broken => Future { inner: FutureInner::Broken },
                }
            },
            FutureInner::Present(v) => {
                let (p, f) = continue_future::<U>();
                let _ = thread::spawn(
                    (move || -> ()
                        requires
                            cont.requires((v,)),
                    {
                        let u = cont(v);
                        p.fulfill(u);
                    }),
                );
                f
            },
            FutureInner::Broken => Future { inner: FutureInner::Broken },
        }
    }
}

impl<T: Send + Sync + 'static, E: Send + Sync + 'static> Future<Result<T, E>> {
    /// The `Result`-aware chaining: short-circuits an `Err` by converting
    /// the error, otherwise applies the fallible next step to the value.
    pub fn and_then<F, U, G>(self, cont: F) -> (r: Future<Result<U, G>>)
        where
            F: FnOnce(T) -> Result<U, G> + Send + Sync + 'static,
            U: Send + Sync + 'static,
            G: From<E> + Send + Sync + 'static,
        requires
            forall|v: T| cont.requires((v,)),
        ensures
            self.is_broken() ==> r.is_broken(),
            self.is_present() ==> r.is_impending(),
            !r.is_present(),
    {
        self.chain(
            (move |res: Result<T, E>| -> (out: Result<U, G>)
                requires
                    forall|x: T| cont.requires((x,)),
            {
                match res {
                    Ok(v) => cont(v),
                    Err(e) => Err(G::from(e)),
                }
            }),
        )
    }
}

/// Folds brokenness into the caller's own error type: the pure half of the
/// `Result`-aware await, applied to what awaiting a `Result`-valued future
/// yielded. A settled result passes through unchanged; brokenness comes
/// out as the caller's own conversion of the broken error.
pub fn fold_broken<T, E: From<AwaitError>>(r: AwaitResult<Result<T, E>>) -> (out: Result<T, E>)
    ensures
        r matches Ok(inner) ==> out == inner,
        r is Err ==> out is Err,
        r matches Err(broken) ==> (E::obeys_from_spec() ==> out == Err::<T, E>(E::from_spec(broken))),
{
    match r {
        Ok(inner) => inner,
        Err(e) => Err(E::from(e)),
    }
}

/// Runs `job` on a fresh thread and returns the future of its result: the
/// thread fulfills the promise of a new pair with whatever `job` returns.
pub fn spawn_future<T, F>(job: F) -> (f: Future<T>)
    where F: FnOnce() -> T + Send + Sync + 'static, T: Send + Sync + 'static,
    requires
        job.requires(()),
    ensures
        f.is_impending(),
{
    let (p, f) = promise_future::<T>();
    let _ = thread::spawn(
        (move || -> ()
            requires
                job.requires(()),
        {
            let v = job();
            p.fulfill(v);
        }),
    );
    f
}

} // verus!
