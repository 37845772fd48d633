//! Type-erased one-shot callables.
//!
//! A continuation chained onto a future, the wake signal a blocked consumer
//! leaves behind, and a job handed to the thread pool are all single-use
//! closures whose concrete type must be erased before they can sit in a
//! shared cell or travel through a job queue. The erasure itself (a boxed
//! `FnOnce`) is opaque to the verifier, so it is confined to this module:
//! a callable is only accepted here if it can be invoked on every value,
//! and invoking it consumes it, so no stored callable ever runs twice or
//! outside its precondition.

use vstd::prelude::*;

verus! {

/// A one-shot continuation for a promise/future pair: handed the produced
/// value (`Some`), it performs the next stage of computation; handed word
/// that the producer vanished unfulfilled (`None`), it passes the
/// brokenness on downstream instead.
#[verifier::external_body]
#[verifier::reject_recursive_types(T)]
pub struct Continuation<T> {
    f: Box<dyn FnOnce(Option<T>) + Send + Sync + 'static>,
}

impl<T> Continuation<T> {
    /// Relies on `Box::new` from std: boxing the closure moves it unchanged.
    /// Only closures callable on every value are accepted, so `invoke`
    /// never runs a closure outside its precondition.
    #[verifier::external_body]
    pub fn new<F>(f: F) -> (c: Continuation<T>) where F: FnOnce(Option<T>) + Send + Sync + 'static
        requires
            forall|v: Option<T>| f.requires((v,)),
    {
        Continuation { f: Box::new(f) }
    }

    /// Relies on `Box<dyn FnOnce>`'s `call_once` from std: runs the stored
    /// closure exactly once, consuming it.
    #[verifier::external_body]
    pub fn invoke(self, v: Option<T>) {
        (self.f)(v)
    }
}

/// A one-shot nullary callable: a wake signal stored by a blocked consumer,
/// or a job handed to the thread pool.
#[verifier::external_body]
pub struct Thunk {
    f: Box<dyn FnOnce() + Send + Sync + 'static>,
}

impl Thunk {
    /// Relies on `Box::new` from std: boxing the closure moves it unchanged.
    /// Only closures callable outright are accepted, so `run` never runs a
    /// closure outside its precondition.
    #[verifier::external_body]
    pub fn new<F>(f: F) -> (t: Thunk) where F: FnOnce() + Send + Sync + 'static
        requires
            f.requires(()),
    {
        Thunk { f: Box::new(f) }
    }

    /// Relies on `Box<dyn FnOnce>`'s `call_once` from std: runs the stored
    /// closure exactly once, consuming it.
    #[verifier::external_body]
    pub fn run(self) {
        (self.f)()
    }
}

} // verus!
