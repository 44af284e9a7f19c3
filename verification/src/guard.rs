//! Pure boolean predicates over a borrowed event, composable by conjunction
//! ([`Guards`]) and disjunction ([`OrGuard`], [`AnyGuard`]).

use vstd::prelude::*;
use std::marker::PhantomData;

verus! {

/// A pure predicate over a borrowed event.
///
/// A guard must not mutate or consume the event; what `check` returns is
/// pinned down by the implementor's own `spec_check`.
pub trait Guard<Upd> {
    /// The meaning of this guard: the set of events it accepts.
    spec fn spec_check(&self, update: &Upd) -> bool;

    /// Evaluates the guard on a borrowed event.
    fn check(&self, update: &Upd) -> (r: bool)
        ensures
            r == self.spec_check(update),
    ;
}

/// A conjunction of guards: accepts an event iff every member accepts it.
///
/// Members are kept in registration order, though the order cannot change
/// what the conjunction accepts.
pub struct Guards<Upd, G> {
    guards: Vec<G>,
    phantom: PhantomData<Upd>,
}

impl<Upd, G: Guard<Upd>> Guards<Upd, G> {
    /// The member guards, in registration order.
    pub closed spec fn members(self) -> Seq<G> {
        self.guards@
    }

    /// An empty conjunction; it accepts every event.
    pub fn new() -> (r: Self)
        ensures
            r.members() =~= Seq::<G>::empty(),
    {
        Guards { guards: Vec::new(), phantom: PhantomData }
    }

    /// Appends one guard, by value, returning the extended conjunction.
    pub fn add(self, data: G) -> (r: Self)
        ensures
            r.members() == self.members().push(data),
    {
        let mut this = self;
        this.guards.push(data);
        this
    }

    /// Appends one guard in place.
    pub fn add_guard(&mut self, data: G)
        ensures
            final(self).members() == old(self).members().push(data),
    {
        self.guards.push(data);
    }

    /// Evaluates the whole conjunction on a borrowed event.
    pub fn check(&self, update: &Upd) -> (r: bool)
        ensures
            r == self.spec_check(update),
    {
        Guard::check(self, update)
    }

    /// Concatenates two conjunctions, keeping both registration orders.
    pub fn with(self, other: Self) -> (r: Self)
        ensures
            r.members() == self.members() + other.members(),
    {
        let mut this = self;
        let mut rest = other;
        this.guards.append(&mut rest.guards);
        this
    }

    /// Whether the conjunction has no members.
    pub fn is_empty(&self) -> (r: bool)
        ensures
            r == (self.members().len() == 0),
    {
        self.guards.len() == 0
    }
}

impl<Upd, G: Guard<Upd>> Guard<Upd> for Guards<Upd, G> {
    /// Conjunction: every member accepts the event.
    open spec fn spec_check(&self, update: &Upd) -> bool {
        forall|i: int| 0 <= i < self.members().len() ==> #[trigger] self.members()[i].spec_check(update)
    }

    /// Short-circuits on the first member that rejects.
    fn check(&self, update: &Upd) -> (r: bool)
        ensures
            r == self.spec_check(update),
    {
        let mut i: usize = 0;
        while i < self.guards.len()
            invariant
                0 <= i <= self.guards.len(),
                forall|j: int| 0 <= j < i ==> #[trigger] self.members()[j].spec_check(update),
            decreases self.guards.len() - i,
        {
            if !self.guards[i].check(update) {
                assert(!self.members()[i as int].spec_check(update));
                return false;
            }
            i += 1;
        }
        true
    }
}

/// A disjunction of two guards; the right one is consulted only when the
/// left one rejects.
pub struct OrGuard<A, B> {
    left: A,
    right: B,
}

impl<A, B> OrGuard<A, B> {
    /// The left alternative.
    pub closed spec fn left(self) -> A {
        self.left
    }

    /// The right alternative.
    pub closed spec fn right(self) -> B {
        self.right
    }

    /// Combines two guards into their disjunction.
    pub fn new(left: A, right: B) -> (r: Self)
        ensures
            r.left() == left,
            r.right() == right,
    {
        OrGuard { left, right }
    }
}

impl<Upd, A: Guard<Upd>, B: Guard<Upd>> Guard<Upd> for OrGuard<A, B> {
    /// Disjunction: either alternative accepts the event.
    open spec fn spec_check(&self, update: &Upd) -> bool {
        self.left().spec_check(update) || self.right().spec_check(update)
    }

    /// Short-circuits: the right guard is not evaluated when the left one
    /// accepts.
    fn check(&self, update: &Upd) -> (r: bool)
        ensures
            r == self.spec_check(update),
    {
        if self.left.check(update) {
            true
        } else {
            self.right.check(update)
        }
    }
}

/// A growable disjunction: an open chain of alternatives for one logical
/// guard slot, accepting an event iff some alternative accepts it.
pub struct AnyGuard<Upd, G> {
    alternatives: Vec<G>,
    phantom: PhantomData<Upd>,
}

impl<Upd, G: Guard<Upd>> AnyGuard<Upd, G> {
    /// The alternatives, in the order they were added.
    pub closed spec fn alternatives(self) -> Seq<G> {
        self.alternatives@
    }

    /// A chain with a single alternative.
    pub fn new(guard: G) -> (r: Self)
        ensures
            r.alternatives() =~= seq![guard],
    {
        let mut alternatives = Vec::new();
        alternatives.push(guard);
        AnyGuard { alternatives, phantom: PhantomData }
    }

    /// Appends one more alternative to the chain.
    pub fn or(self, guard: G) -> (r: Self)
        ensures
            r.alternatives() == self.alternatives().push(guard),
    {
        let mut this = self;
        this.alternatives.push(guard);
        this
    }
}

impl<Upd, G: Guard<Upd>> Guard<Upd> for AnyGuard<Upd, G> {
    /// Disjunction: some alternative accepts the event.
    open spec fn spec_check(&self, update: &Upd) -> bool {
        exists|i: int| 0 <= i < self.alternatives().len() && #[trigger] self.alternatives()[i].spec_check(update)
    }

    /// Short-circuits on the first alternative that accepts.
    fn check(&self, update: &Upd) -> (r: bool)
        ensures
            r == self.spec_check(update),
    {
        let mut i: usize = 0;
        while i < self.alternatives.len()
            invariant
                0 <= i <= self.alternatives.len(),
                forall|j: int| 0 <= j < i ==> !(#[trigger] self.alternatives()[j].spec_check(update)),
            decreases self.alternatives.len() - i,
        {
            if self.alternatives[i].check(update) {
                assert(self.alternatives()[i as int].spec_check(update));
                return true;
            }
            i += 1;
        }
        false
    }
}

/// Guard conjunction: a two-member conjunction accepts an event exactly when
/// both members accept it.
pub proof fn lemma_guard_conjunction<Upd, G: Guard<Upd>>(gs: Guards<Upd, G>, g1: G, g2: G, update: &Upd)
    requires
        gs.members() == seq![g1, g2],
    ensures
        gs.spec_check(update) == (g1.spec_check(update) && g2.spec_check(update)),
{
    assert(gs.members()[0] == g1);
    assert(gs.members()[1] == g2);
}

/// Guard disjunction: `OrGuard` accepts an event exactly when either of its
/// two guards accepts it.
pub proof fn lemma_guard_disjunction<Upd, A: Guard<Upd>, B: Guard<Upd>>(og: OrGuard<A, B>, update: &Upd)
    ensures
        og.spec_check(update) == (og.left().spec_check(update) || og.right().spec_check(update)),
{
}

} // verus!
