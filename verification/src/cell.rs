//! The shared result cell of a promise/future pair and its state machine.
//!
//! One producer (the promise) and one consumer (the future) share a single
//! lock-protected cell. Every transition the pair can make — fulfilling,
//! abandoning, polling, waiting, chaining — is a single read-modify-write
//! of that cell, given here as a step function whose contract pins the new
//! cell and the follow-up action down exactly. The holders of the cell
//! perform each step under the cell's lock and then carry out the action
//! (invoking a continuation, waking a waiter) outside it.

use vstd::prelude::*;

use crate::oneshot::Continuation;
use crate::oneshot::Thunk;
use crate::AwaitError;

verus! {

/// The result slot of a promise/future pair: no result yet, a produced
/// value, or the mark left behind when the producer vanished unfulfilled.
pub enum PromiseValue<T> {
    Impending,
    Present(T),
    Broken,
}

impl<T> PromiseValue<T> {
    /// Read the slot and reset it to `Impending` in one step, so that a
    /// value is consumed exactly once.
    pub fn take(&mut self) -> (r: PromiseValue<T>)
        ensures
            r == *old(self),
            *final(self) is Impending,
    {
        let mut pv = PromiseValue::Impending;
        core::mem::swap(self, &mut pv);
        pv
    }
}

/// The lock-protected state shared by one promise and one future: the
/// result slot, an optional stored continuation, and an optional wake
/// signal left by a blocked consumer.
#[verifier::reject_recursive_types(T)]
pub struct CellState<T> {
    pub value: PromiseValue<T>,
    pub continuation: Option<Continuation<T>>,
    pub waiter: Option<Thunk>,
}

impl<T> CellState<T> {
    /// A settled slot never coexists with a stored continuation: fulfilling
    /// hands the value to the continuation instead of storing it, and
    /// abandoning hands the continuation out to be told of the brokenness.
    pub open spec fn wf(&self) -> bool {
        (self.value is Present || self.value is Broken) ==> self.continuation is None
    }

    /// The pristine cell allocated alongside a new promise/future pair.
    pub fn new() -> (c: CellState<T>)
        ensures
            c.value is Impending,
            c.continuation is None,
            c.waiter is None,
    {
        CellState { value: PromiseValue::Impending, continuation: None, waiter: None }
    }
}

/// What a fulfilling producer must do after its step: run the stored
/// continuation on this thread, dispatch it to a fresh thread, or — the
/// value having been stored — fire the consumer's wake signal, if any.
#[verifier::reject_recursive_types(T)]
pub enum FulfillAction<T> {
    RunInline(Continuation<T>, T),
    Dispatch(Continuation<T>, T),
    Wake(Option<Thunk>),
}

/// How fulfilling transforms the cell. Exactly one of two things happens:
/// a stored continuation is removed to be run with the value, or the value
/// is stored and the recorded waiter (if any) is taken to be woken.
pub open spec fn spec_fulfill<T>(cell: CellState<T>, val: T, inline: bool) -> (CellState<T>, FulfillAction<T>) {
    match cell.continuation {
        Some(c) => (
            (CellState { continuation: None, ..cell }),
            if inline {
                FulfillAction::RunInline(c, val)
            } else {
                FulfillAction::Dispatch(c, val)
            },
        ),
        None => (
            (CellState { value: PromiseValue::Present(val), waiter: None, ..cell }),
            FulfillAction::Wake(cell.waiter),
        ),
    }
}

/// The producer's fulfilling step, performed under the cell's lock.
pub fn fulfill_step<T>(cell: &mut CellState<T>, val: T, inline: bool) -> (action: FulfillAction<T>)
    ensures
        (*final(cell), action) == spec_fulfill(*old(cell), val, inline),
{
    match cell.continuation.take() {
        Some(c) => if inline {
            FulfillAction::RunInline(c, val)
        } else {
            FulfillAction::Dispatch(c, val)
        },
        None => {
            cell.value = PromiseValue::Present(val);
            FulfillAction::Wake(cell.waiter.take())
        },
    }
}

/// How abandoning transforms the cell: the slot turns `Broken`; a stored
/// continuation comes out to be told that no value will ever arrive, so
/// that its own downstream promise breaks in turn (the continuation's
/// computing stage never runs); and the recorded waiter (if any) comes
/// out to be woken.
pub open spec fn spec_abandon<T>(cell: CellState<T>) -> (CellState<T>, Option<Continuation<T>>, Option<Thunk>) {
    (
        (CellState { value: PromiseValue::Broken, continuation: None, waiter: None }),
        cell.continuation,
        cell.waiter,
    )
}

/// The producer's abandoning step: how a promise discarded without being
/// fulfilled marks the cell, performed under the cell's lock.
pub fn abandon_step<T>(cell: &mut CellState<T>) -> (r: (Option<Continuation<T>>, Option<Thunk>))
    ensures
        (*final(cell), r.0, r.1) == spec_abandon(*old(cell)),
{
    cell.value = PromiseValue::Broken;
    (cell.continuation.take(), cell.waiter.take())
}

/// How a non-blocking poll transforms the cell: the slot is taken whole —
/// read and reset to pending in one step — so that whatever it held is
/// delivered to exactly one poll.
pub open spec fn spec_poll<T>(cell: CellState<T>) -> (CellState<T>, PromiseValue<T>) {
    ((CellState { value: PromiseValue::Impending, ..cell }), cell.value)
}

/// The consumer's polling step, performed under the cell's lock.
pub fn poll_step<T>(cell: &mut CellState<T>) -> (taken: PromiseValue<T>)
    ensures
        (*final(cell), taken) == spec_poll(*old(cell)),
{
    cell.value.take()
}

/// What one waiting attempt by the consumer found: a settled result, or
/// nothing yet — the consumer's wake signal is now in the cell and the
/// consumer should block until it fires.
#[verifier::reject_recursive_types(T)]
pub enum WaitStep<T> {
    Ready(Result<T, AwaitError>),
    Park,
}

/// How one waiting attempt transforms the cell: a present value is taken
/// (consumed exactly once), a broken mark is reported, and a still-pending
/// cell records the consumer's wake signal, replacing any earlier one.
pub open spec fn spec_wait<T>(cell: CellState<T>, waker: Thunk) -> (CellState<T>, WaitStep<T>) {
    match cell.value {
        PromiseValue::Impending => (
            (CellState { waiter: Some(waker), ..cell }),
            WaitStep::Park,
        ),
        PromiseValue::Present(v) => (
            (CellState { value: PromiseValue::Impending, ..cell }),
            WaitStep::Ready(Ok(v)),
        ),
        PromiseValue::Broken => (
            (CellState { value: PromiseValue::Impending, ..cell }),
            WaitStep::Ready(Err(AwaitError::Broken)),
        ),
    }
}

/// The consumer's waiting step, performed under the cell's lock.
pub fn wait_step<T>(cell: &mut CellState<T>, waker: Thunk) -> (step: WaitStep<T>)
    ensures
        (*final(cell), step) == spec_wait(*old(cell), waker),
{
    match cell.value.take() {
        PromiseValue::Impending => {
            cell.waiter = Some(waker);
            WaitStep::Park
        },
        PromiseValue::Present(v) => WaitStep::Ready(Ok(v)),
        PromiseValue::Broken => WaitStep::Ready(Err(AwaitError::Broken)),
    }
}

/// What chaining a continuation found: the continuation was stored for the
/// producer to run later; or the value was already there and the
/// continuation must be run with it now; or the cell was broken and the
/// continuation will never run.
#[verifier::reject_recursive_types(T)]
pub enum ChainAction<T> {
    Stored,
    Run(Continuation<T>, T),
    Broken,
}

/// How chaining transforms the cell: a pending cell stores the
/// continuation, a present value is taken to feed it at once, a broken
/// cell refuses it.
pub open spec fn spec_chain<T>(cell: CellState<T>, cont: Continuation<T>) -> (CellState<T>, ChainAction<T>) {
    match cell.value {
        PromiseValue::Impending => (
            (CellState { continuation: Some(cont), ..cell }),
            ChainAction::Stored,
        ),
        PromiseValue::Present(v) => (
            (CellState { value: PromiseValue::Impending, ..cell }),
            ChainAction::Run(cont, v),
        ),
        PromiseValue::Broken => (
            (CellState { value: PromiseValue::Impending, ..cell }),
            ChainAction::Broken,
        ),
    }
}

/// The consumer's chaining step, performed under the cell's lock.
pub fn chain_step<T>(cell: &mut CellState<T>, cont: Continuation<T>) -> (action: ChainAction<T>)
    ensures
        (*final(cell), action) == spec_chain(*old(cell), cont),
{
    match cell.value.take() {
        PromiseValue::Impending => {
            cell.continuation = Some(cont);
            ChainAction::Stored
        },
        PromiseValue::Present(v) => ChainAction::Run(cont, v),
        PromiseValue::Broken => ChainAction::Broken,
    }
}

} // verus!
