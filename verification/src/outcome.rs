//! Terminal outcomes of a dispatch: what a handler reports, and what the
//! error sink receives.

use vstd::prelude::*;

verus! {

/// Outcome reported by a handler that actually ran.
pub enum HandleResult<E> {
    /// The handler ran to completion successfully.
    Done,
    /// The handler ran but signalled a failure.
    Failed(E),
}

/// The only value ever delivered to the terminal error sink.
pub enum DispatchError<Upd, E> {
    /// The routing table was exhausted; carries the original event, untouched.
    NoHandler(Upd),
    /// A matched handler ran but reported a failure.
    HandlerError(E),
}

} // verus!
