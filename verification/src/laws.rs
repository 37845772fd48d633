//! The toolkit's cross-cutting guarantees, stated over the models that the
//! executable functions are proved to implement — [`cell::spec_fulfill`]
//! and its siblings for the shared cell, [`crate::spec_ready`] for a
//! collapsed future — so that each law below holds of the running code by
//! composition with those functions' own contracts.

use vstd::prelude::*;

use crate::cell;
use crate::cell::CellState;
use crate::cell::ChainAction;
use crate::cell::FulfillAction;
use crate::cell::WaitStep;
use crate::cell::PromiseValue;
use crate::oneshot::Continuation;
use crate::oneshot::Thunk;
use crate::spec_ready;
use crate::AwaitError;
use crate::Future;

verus! {

/// A pre-resolved future yields exactly its literal value: a future that
/// holds `v` answers a waiting consumer with `Ok(v)` and nothing else.
pub proof fn lemma_present_identity<T>(f: Future<T>, v: T)
    requires
        f.is_present(),
        f.spec_value() == v,
    ensures
        spec_ready(f) == Some(Ok::<T, AwaitError>(v)),
{
}

/// A future known broken yields exactly the broken error.
pub proof fn lemma_broken_identity<T>(f: Future<T>)
    requires
        f.is_broken(),
    ensures
        spec_ready(f) == Some(Err::<T, AwaitError>(AwaitError::Broken)),
{
}

/// Fulfilling settles the cell in exactly one way: a stored continuation
/// is removed and handed the value — inline on the fulfilling thread or
/// dispatched, as the promise was built — or, with no continuation there,
/// the value is stored and the recorded waiter comes out to be woken.
/// Never both, never neither.
pub proof fn lemma_fulfill_exactly_once<T>(state: CellState<T>, val: T, inline: bool)
    requires
        state.wf(),
    ensures
        ({
            let (next, action) = cell::spec_fulfill(state, val, inline);
            &&& ((action is RunInline || action is Dispatch) <==> state.continuation is Some)
            &&& ((next.value is Present) <==> state.continuation is None)
            &&& (state.continuation matches Some(c) ==> next.value == state.value
                && action == (if inline {
                    FulfillAction::<T>::RunInline(c, val)
                } else {
                    FulfillAction::<T>::Dispatch(c, val)
                }))
            &&& (state.continuation is None ==> next.value == PromiseValue::<T>::Present(val)
                && action == FulfillAction::<T>::Wake(state.waiter) && next.waiter is None)
        }),
{
}

/// If a fulfillment completes before the consumer's next waiting step —
/// whether the consumer was already blocked or only arrives later — that
/// step yields `Ok` with exactly the fulfilled value, and the waiter
/// recorded at fulfilment time is the one that was woken.
pub proof fn lemma_fulfill_then_wait<T>(state: CellState<T>, val: T, inline: bool, waker: Thunk)
    requires
        state.continuation is None,
    ensures
        ({
            let (resolved, action) = cell::spec_fulfill(state, val, inline);
            &&& action == FulfillAction::<T>::Wake(state.waiter)
            &&& cell::spec_wait(resolved, waker).1 == WaitStep::Ready(Ok::<T, AwaitError>(val))
        }),
{
}

/// If the producer abandons its promise — before or while the consumer
/// waits — the consumer's next waiting step yields the broken error; a
/// waiter blocked at abandonment time is the one that was woken, and a
/// stored continuation is the one handed out to be told of the brokenness.
pub proof fn lemma_abandon_then_wait<T>(state: CellState<T>, waker: Thunk)
    ensures
        ({
            let (broken, discarded, woken) = cell::spec_abandon(state);
            &&& woken == state.waiter
            &&& discarded == state.continuation
            &&& cell::spec_wait(broken, waker).1 == WaitStep::Ready(
                Err::<T, AwaitError>(AwaitError::Broken),
            )
        }),
{
}

/// A settled result is delivered exactly once at the cell: the waiting or
/// polling step that takes a value (or the broken mark) leaves the slot
/// pending, so a second taking step finds nothing — no value is ever
/// delivered twice. (The future's own poll caches the one delivery, which
/// is why every later poll repeats the same terminal answer.)
pub proof fn lemma_deliver_exactly_once<T>(state: CellState<T>, first: Thunk, second: Thunk)
    ensures
        ({
            let (taken, step1) = cell::spec_wait(state, first);
            step1 is Ready ==> cell::spec_wait(taken, second).1 is Park
        }),
        ({
            let (taken, observed) = cell::spec_poll(state);
            !(observed is Impending) ==> cell::spec_poll(taken).1 is Impending
        }),
{
}

/// A continuation chained before resolution is stored, and a later
/// fulfillment hands it exactly the fulfilled value: run on the
/// fulfilling thread itself when the promise is an inline (chained) one,
/// and dispatched to a fresh thread — off both the registering and the
/// producer's thread — when it is not.
pub proof fn lemma_chain_then_fulfill<T>(
    state: CellState<T>,
    cont: Continuation<T>,
    val: T,
)
    requires
        state.value is Impending,
    ensures
        ({
            let (stored, registered) = cell::spec_chain(state, cont);
            &&& registered == ChainAction::<T>::Stored
            &&& cell::spec_fulfill(stored, val, false).1 == FulfillAction::<T>::Dispatch(cont, val)
            &&& cell::spec_fulfill(stored, val, true).1 == FulfillAction::<T>::RunInline(cont, val)
        }),
{
}

/// A continuation chained before resolution never computes on an
/// abandoned source: abandoning takes the stored continuation out of the
/// cell — to be told that no value will come, so the brokenness passes to
/// its downstream promise — and leaves the cell broken with no
/// continuation behind.
pub proof fn lemma_chain_then_abandon<T>(state: CellState<T>, cont: Continuation<T>)
    requires
        state.value is Impending,
    ensures
        ({
            let (stored, registered) = cell::spec_chain(state, cont);
            let (broken, discarded, _) = cell::spec_abandon(stored);
            &&& registered == ChainAction::<T>::Stored
            &&& discarded == Some(cont)
            &&& broken.value is Broken
            &&& broken.continuation is None
        }),
{
}

/// A continuation never runs on a broken source: chaining onto a cell
/// whose promise was abandoned refuses the continuation outright.
pub proof fn lemma_chain_broken<T>(state: CellState<T>, cont: Continuation<T>)
    requires
        state.value is Broken,
    ensures
        cell::spec_chain(state, cont).1 == ChainAction::<T>::Broken,
{
}

} // verus!

