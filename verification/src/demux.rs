//! The routing table: an ordered, immutable sequence of services with
//! deterministic first-match semantics.

use vstd::prelude::*;
use std::marker::PhantomData;
use crate::handler::Handler;
use crate::outcome::HandleResult;

verus! {

/// No service registered before position `i` claims the event.
pub open spec fn no_match_before<Upd, E, S: Handler<Upd, E>>(
    services: Seq<S>,
    upd: Upd,
    i: int,
) -> bool {
    forall|j: int| 0 <= j < i ==> !(#[trigger] services[j].spec_claims(upd))
}

/// No registered service claims the event.
pub open spec fn no_match<Upd, E, S: Handler<Upd, E>>(services: Seq<S>, upd: Upd) -> bool {
    no_match_before(services, upd, services.len() as int)
}

/// Position `i` holds the first registered service that claims the event.
pub open spec fn first_match_at<Upd, E, S: Handler<Upd, E>>(
    services: Seq<S>,
    upd: Upd,
    i: int,
) -> bool {
    &&& 0 <= i < services.len()
    &&& services[i].spec_claims(upd)
    &&& no_match_before(services, upd, i)
}

/// At most one position can hold the first match.
pub proof fn lemma_first_match_unique<Upd, E, S: Handler<Upd, E>>(
    services: Seq<S>,
    upd: Upd,
    i: int,
    j: int,
)
    requires
        first_match_at(services, upd, i),
        first_match_at(services, upd, j),
    ensures
        i == j,
{
    if i < j {
        assert(!services[i].spec_claims(upd));
    }
    if j < i {
        assert(!services[j].spec_claims(upd));
    }
}

/// An ordered, immutable routing table, frozen from a [`DemuxBuilder`].
pub struct Demux<Upd, E, S> {
    services: Vec<S>,
    phantom: PhantomData<(Upd, E)>,
}

impl<Upd, E, S: Handler<Upd, E>> Demux<Upd, E, S> {
    /// The registered services, in registration order.
    pub closed spec fn services(self) -> Seq<S> {
        self.services@
    }

    /// Scans the services in registration order and runs the first one that
    /// claims the event.
    ///
    /// Earlier registrations strictly shadow later ones: for an event that
    /// several services would accept, only the first one runs.  If no
    /// service claims the event, it comes back unchanged.
    pub fn handle(&self, upd: Upd) -> (r: Result<HandleResult<E>, Upd>)
        ensures
            r matches Ok(out) ==> exists|i: int|
                #[trigger] first_match_at(self.services(), upd, i)
                    && self.services()[i].spec_post(upd, out),
            r matches Err(e) ==> e == upd && no_match(self.services(), upd),
    {
        let mut current = upd;
        let mut i: usize = 0;
        while i < self.services.len()
            invariant
                current == upd,
                0 <= i <= self.services.len(),
                no_match_before(self.services(), upd, i as int),
            decreases self.services.len() - i,
        {
            match self.services[i].handle(current) {
                Ok(out) => {
                    assert(first_match_at(self.services(), upd, i as int));
                    return Ok(out);
                },
                Err(back) => {
                    assert(!self.services()[i as int].spec_claims(upd));
                    current = back;
                },
            }
            i += 1;
        }
        Err(current)
    }
}

/// The mutable, append-only phase of a routing table.
pub struct DemuxBuilder<Upd, E, S> {
    services: Vec<S>,
    phantom: PhantomData<(Upd, E)>,
}

impl<Upd, E, S: Handler<Upd, E>> DemuxBuilder<Upd, E, S> {
    /// The services registered so far, in registration order.
    pub closed spec fn services(self) -> Seq<S> {
        self.services@
    }

    /// An empty builder.
    pub fn new() -> (r: Self)
        ensures
            r.services() =~= Seq::<S>::empty(),
    {
        DemuxBuilder { services: Vec::new(), phantom: PhantomData }
    }

    /// Registers one more service, after all earlier ones.
    pub fn add_service(&mut self, service: S)
        ensures
            final(self).services() == old(self).services().push(service),
    {
        self.services.push(service);
    }

    /// Freezes the registration order into an immutable routing table.
    pub fn build(self) -> (r: Demux<Upd, E, S>)
        ensures
            r.services() == self.services(),
    {
        Demux { services: self.services, phantom: PhantomData }
    }
}

} // verus!
