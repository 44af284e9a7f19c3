//! The terminal error sink: absorbs every undispatched or failed event and
//! never itself fails.

use vstd::prelude::*;
use crate::outcome::DispatchError;

verus! {

/// A terminal sink for dispatch errors.
///
/// The sink absorbs each error it is handed — it has no failure channel of
/// its own.  The abstract sequence `absorbed` records, in order, every error
/// the sink has absorbed; `handle_error` extends it by exactly the error it
/// was handed.
pub trait ErrorHandler<Upd, E> {
    /// Every error absorbed so far, in order of arrival.
    spec fn absorbed(&self) -> Seq<DispatchError<Upd, E>>;

    /// Absorbs one more error.
    fn handle_error(&mut self, err: DispatchError<Upd, E>)
        ensures
            final(self).absorbed() == old(self).absorbed().push(err),
    ;
}

/// A sink that keeps every absorbed error, for later inspection.
pub struct ErrorLog<Upd, E> {
    errors: Vec<DispatchError<Upd, E>>,
}

impl<Upd, E> ErrorLog<Upd, E> {
    /// An empty log.
    pub fn new() -> (r: Self)
        ensures
            r.absorbed() =~= Seq::<DispatchError<Upd, E>>::empty(),
    {
        ErrorLog { errors: Vec::new() }
    }

    /// The number of errors absorbed so far.
    pub fn len(&self) -> (r: usize)
        ensures
            r == self.absorbed().len(),
    {
        self.errors.len()
    }

    /// Hands the absorbed errors out, in order of arrival.
    pub fn into_errors(self) -> (r: Vec<DispatchError<Upd, E>>)
        ensures
            r@ == self.absorbed(),
    {
        self.errors
    }
}

impl<Upd, E> ErrorHandler<Upd, E> for ErrorLog<Upd, E> {
    /// The recorded errors.
    closed spec fn absorbed(&self) -> Seq<DispatchError<Upd, E>> {
        self.errors@
    }

    fn handle_error(&mut self, err: DispatchError<Upd, E>) {
        self.errors.push(err);
    }
}

} // verus!
