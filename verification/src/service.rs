//! A service record: a guard set bound to a handler, the unit registered in
//! a routing table.

use vstd::prelude::*;
use crate::guard::{Guard, Guards};
use crate::handler::{Handler, HandlerInto};
use crate::outcome::HandleResult;

verus! {

/// A guard set bound to a handler.  As a routing-table entry it claims
/// exactly the events that pass every guard and that the handler claims.
pub struct Service<Upd, G, H> {
    pub guards: Guards<Upd, G>,
    pub handler: H,
}

impl<Upd, G, H> Service<Upd, G, H> {
    /// Binds a guard set to a handler.
    pub fn new<F: HandlerInto<H>>(guards: Guards<Upd, G>, handler: F) -> (r: Self)
        requires
            handler.ready(),
        ensures
            r.guards == guards,
            r.handler == handler.spec_into_handler(),
    {
        Service { guards, handler: handler.into_handler() }
    }
}

impl<Upd, E, G: Guard<Upd>, H: Handler<Upd, E>> Handler<Upd, E> for Service<Upd, G, H> {
    /// Every guard passes and the handler claims the event.
    open spec fn spec_claims(&self, upd: Upd) -> bool {
        &&& self.guards.spec_check(&upd)
        &&& self.handler.spec_claims(upd)
    }

    /// The handler's outcome.
    open spec fn spec_post(&self, upd: Upd, out: HandleResult<E>) -> bool {
        self.handler.spec_post(upd, out)
    }

    fn handle(&self, upd: Upd) -> (r: Result<HandleResult<E>, Upd>) {
        if !self.guards.check(&upd) {
            Err(upd)
        } else {
            self.handler.handle(upd)
        }
    }
}

} // verus!
