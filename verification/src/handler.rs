//! The unit of work registered in a routing table: a handler either claims
//! an event and reports an outcome, or declines and hands the event back
//! unchanged.

use vstd::prelude::*;
use std::marker::PhantomData;
use crate::outcome::HandleResult;

verus! {

/// A handler over events of type `Upd`, reporting failures of type `E`.
///
/// `handle` either claims the event and reports an outcome, or declines and
/// returns the event unchanged.  Whether an event is claimed is a pure
/// function of the handler and the event (`spec_claims`); the outcome of a
/// claimed event may be effectful, but always satisfies the implementor's
/// `spec_post` relation.
pub trait Handler<Upd, E> {
    /// The set of events this handler claims.
    spec fn spec_claims(&self, upd: Upd) -> bool;

    /// What is known of the outcome reported for a claimed event.
    spec fn spec_post(&self, upd: Upd, out: HandleResult<E>) -> bool;

    /// Runs the handler on one event.
    fn handle(&self, upd: Upd) -> (r: Result<HandleResult<E>, Upd>)
        ensures
            r matches Ok(out) ==> self.spec_claims(upd) && self.spec_post(upd, out),
            r matches Err(e) ==> !self.spec_claims(upd) && e == upd,
    ;
}

/// Conversion of a plain callable into a stored handler shape.
pub trait HandlerInto<T>: Sized {
    /// The converted handler, as a function of the callable.
    spec fn spec_into_handler(self) -> T;

    /// When the conversion may be performed; `true` unless the implementor
    /// says otherwise.
    open spec fn ready(self) -> bool {
        true
    }

    /// Performs the conversion.
    fn into_handler(self) -> (r: T)
        requires
            self.ready(),
        ensures
            r == self.spec_into_handler(),
    ;
}

/// A handler built from a plain one-argument callable.
///
/// It claims every event; the reported outcome is whatever the callable
/// returns, so everything its postcondition admits is all that is known of
/// the outcome.
#[verifier::reject_recursive_types(Upd)]
#[verifier::reject_recursive_types(E)]
pub struct FnHandlerWrapper<Upd, E, F> where F: Fn(Upd) -> HandleResult<E> {
    f: F,
    phantom: PhantomData<(Upd, E)>,
}

impl<Upd, E, F> FnHandlerWrapper<Upd, E, F> where F: Fn(Upd) -> HandleResult<E> {
    #[verifier::type_invariant]
    spec fn wf(self) -> bool {
        forall|u: Upd| #[trigger] call_requires(self.f, (u,))
    }

    /// The wrapped callable.
    pub closed spec fn func(self) -> F {
        self.f
    }

    /// Wraps a callable that accepts every event.
    pub fn new(f: F) -> (r: Self)
        requires
            forall|u: Upd| #[trigger] call_requires(f, (u,)),
        ensures
            r.func() == f,
    {
        FnHandlerWrapper { f, phantom: PhantomData }
    }
}

impl<Upd, E, F> Handler<Upd, E> for FnHandlerWrapper<Upd, E, F> where F: Fn(Upd) -> HandleResult<E> {
    /// Every event is claimed.
    open spec fn spec_claims(&self, upd: Upd) -> bool {
        true
    }

    /// The outcome is a possible return of the wrapped callable.
    open spec fn spec_post(&self, upd: Upd, out: HandleResult<E>) -> bool {
        call_ensures(self.func(), (upd,), out)
    }

    fn handle(&self, upd: Upd) -> (r: Result<HandleResult<E>, Upd>) {
        proof {
            use_type_invariant(&*self);
        }
        Ok((self.f)(upd))
    }
}

impl<Upd, E, F> HandlerInto<FnHandlerWrapper<Upd, E, F>> for F where F: Fn(Upd) -> HandleResult<E> {
    /// The wrapper holding this callable.
    closed spec fn spec_into_handler(self) -> FnHandlerWrapper<Upd, E, F> {
        FnHandlerWrapper { f: self, phantom: PhantomData }
    }

    /// The callable must accept every event.
    open spec fn ready(self) -> bool {
        forall|u: Upd| #[trigger] call_requires(self, (u,))
    }

    fn into_handler(self) -> (r: FnHandlerWrapper<Upd, E, F>) {
        FnHandlerWrapper::new(self)
    }
}

/// Converting a callable into a handler stores exactly that callable.
pub proof fn lemma_callable_into_handler<Upd, E, F: Fn(Upd) -> HandleResult<E>>(f: F)
    ensures
        f.spec_into_handler().func() == f,
{
}

} // verus!
