//! Carriers that bind a concrete lens to a handler: a lens-carrying builder
//! ([`UpdateParser`]) and a guard-then-total-parse service
//! ([`UpdateParserHandler`] over a [`ParseUpdate`]).

use vstd::prelude::*;
use std::marker::PhantomData;
use crate::guard::Guard;
use crate::handler::{Handler, HandlerInto};
use crate::outcome::HandleResult;
use crate::parser::{Parser, ParserHandler, RecombineFrom};
use crate::types::Update;

verus! {

/// A builder holding one lens over the broad [`Update`] type, waiting for a
/// handler to be attached.
pub struct UpdateParser<P, E> {
    parser: P,
    phantom: PhantomData<E>,
}

impl<P, E> UpdateParser<P, E> {
    /// The lens carried by this builder.
    pub closed spec fn parser(self) -> P {
        self.parser
    }

    /// Wraps one lens.
    pub fn new(parser: P) -> (r: Self)
        ensures
            r.parser() == parser,
    {
        UpdateParser { parser, phantom: PhantomData }
    }

    /// Hands the lens back.
    pub fn into_inner(self) -> (r: P)
        ensures
            r == self.parser(),
    {
        self.parser
    }

    /// Attaches a handler for the narrowed values, producing a service ready
    /// for registration.
    pub fn to<Dst, Rest, H, F>(self, f: F) -> (r: ParserHandler<Dst, Rest, P, H>)
        where
            P: Parser<Update, Dst, Rest>,
            Update: RecombineFrom<P, Out = Dst, Rest = Rest>,
            H: Handler<Dst, E>,
            F: HandlerInto<H>,
        requires
            f.ready(),
        ensures
            r.parser() == self.parser(),
            r.handler() == f.spec_into_handler(),
    {
        ParserHandler::new(self.into_inner(), f)
    }
}

/// A narrowing split into a pure acceptance test and a total projection:
/// `parse` may be called on exactly the events `check` accepts.
pub trait ParseUpdate<GenUpd>: Sized {
    /// The narrowed type.
    type Upd;

    /// The set of events this narrowing accepts.
    spec fn spec_check(update: &GenUpd) -> bool;

    /// What an accepted event is narrowed into.
    spec fn spec_parse(update: GenUpd) -> Self::Upd;

    /// Tests whether the event is accepted.
    fn check(update: &GenUpd) -> (r: bool)
        ensures
            r == Self::spec_check(update),
    ;

    /// Narrows an accepted event.
    fn parse(update: GenUpd) -> (r: Self::Upd)
        requires
            Self::spec_check(&update),
        ensures
            r == Self::spec_parse(update),
    ;
}

/// The acceptance test of a [`ParseUpdate`], as a reusable [`Guard`].
pub struct ParseGuard<GenUpd, P> {
    phantom: PhantomData<(GenUpd, P)>,
}

impl<GenUpd, P> ParseGuard<GenUpd, P> {
    /// The guard testing `P`'s acceptance.  All values of this type are the
    /// same guard.
    pub fn new() -> Self {
        ParseGuard { phantom: PhantomData }
    }
}

impl<GenUpd, P: ParseUpdate<GenUpd>> Guard<GenUpd> for ParseGuard<GenUpd, P> {
    open spec fn spec_check(&self, update: &GenUpd) -> bool {
        P::spec_check(update)
    }

    fn check(&self, update: &GenUpd) -> (r: bool) {
        P::check(update)
    }
}

/// A service that narrows each accepted event through a [`ParseUpdate`] and
/// hands the narrowed value to a handler that claims every narrowed value.
pub struct UpdateParserHandler<HandlerT, P, GenUpd, E>
    where
        P: ParseUpdate<GenUpd>,
        HandlerT: Handler<<P as ParseUpdate<GenUpd>>::Upd, E>,
{
    handler: HandlerT,
    phantom: PhantomData<(P, GenUpd, E)>,
}

impl<HandlerT, P, GenUpd, E> UpdateParserHandler<HandlerT, P, GenUpd, E>
    where
        P: ParseUpdate<GenUpd>,
        HandlerT: Handler<<P as ParseUpdate<GenUpd>>::Upd, E>,
{
    #[verifier::type_invariant]
    spec fn wf(self) -> bool {
        forall|n: <P as ParseUpdate<GenUpd>>::Upd| #[trigger] self.handler.spec_claims(n)
    }

    /// The handler for narrowed values.
    pub closed spec fn handler(self) -> HandlerT {
        self.handler
    }

    /// Wraps a handler that claims every narrowed value.
    pub fn new(handler: HandlerT) -> (r: Self)
        requires
            forall|n: <P as ParseUpdate<GenUpd>>::Upd| #[trigger] handler.spec_claims(n),
        ensures
            r.handler() == handler,
    {
        UpdateParserHandler { handler, phantom: PhantomData }
    }
}

impl<HandlerT, P, GenUpd, E> Handler<GenUpd, E> for UpdateParserHandler<HandlerT, P, GenUpd, E>
    where
        P: ParseUpdate<GenUpd>,
        HandlerT: Handler<<P as ParseUpdate<GenUpd>>::Upd, E>,
{
    /// Exactly the events the narrowing accepts.
    open spec fn spec_claims(&self, upd: GenUpd) -> bool {
        P::spec_check(&upd)
    }

    /// The inner handler's outcome on the narrowed value.
    open spec fn spec_post(&self, upd: GenUpd, out: HandleResult<E>) -> bool {
        self.handler().spec_post(P::spec_parse(upd), out)
    }

    fn handle(&self, data: GenUpd) -> (r: Result<HandleResult<E>, GenUpd>) {
        proof {
            use_type_invariant(&*self);
        }
        if !P::check(&data) {
            Err(data)
        } else {
            let narrowed = P::parse(data);
            match self.handler.handle(narrowed) {
                Ok(out) => Ok(out),
                Err(_) => unreached(),
            }
        }
    }
}

} // verus!
