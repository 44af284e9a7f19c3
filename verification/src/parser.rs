//! Lenses: bidirectional, partial projections that narrow a broad event into
//! a sub-shape plus a residual, and reconstruct the original event from the
//! two.
//!
//! The forward direction is [`Parser`]; the backward direction is
//! [`RecombineFrom`].  Every lens carries its round-trip law as a proof
//! obligation: narrowing an event and recombining what came out yields the
//! original event, and a narrowing that declines hands the event back
//! unchanged.

use vstd::prelude::*;
use std::marker::PhantomData;
use crate::handler::{Handler, HandlerInto};
use crate::outcome::HandleResult;

verus! {

/// What a successful narrowing produces: the narrowed value and the residual
/// needed to reconstruct the original event.
pub struct ParserOut<T, Rest> {
    /// The narrowed value.
    pub data: T,
    /// The residual.
    pub rest: Rest,
}

impl<T, Rest> ParserOut<T, Rest> {
    /// Pairs a narrowed value with its residual.
    pub fn new(data: T, rest: Rest) -> (r: Self)
        ensures
            r == (ParserOut { data, rest }),
    {
        ParserOut { data, rest }
    }

    /// Takes the pair apart.
    pub fn into_inner(self) -> (r: (T, Rest))
        ensures
            r == (self.data, self.rest),
    {
        (self.data, self.rest)
    }
}

/// The backward direction of a lens tagged by `P`: reconstructs `Self` from
/// a narrowed value and the residual produced alongside it.
///
/// Reconstruction is total: it accepts any narrowed value, not only the one
/// originally produced, so a handler may transform the narrowed value and
/// the pipeline can still splice it back into the original event shape.
pub trait RecombineFrom<P>: Sized {
    /// The narrowed value accepted by the reconstruction.
    type Out;

    /// The residual accepted by the reconstruction.
    type Rest;

    /// The meaning of the reconstruction.
    spec fn spec_recombine(info: ParserOut<Self::Out, Self::Rest>) -> Self;

    /// Reconstructs the broad event.
    fn recombine(info: ParserOut<Self::Out, Self::Rest>) -> (r: Self)
        ensures
            r == Self::spec_recombine(info),
    ;
}

/// The forward direction of a lens: attempts to narrow a `Src` event into a
/// `Dst` value plus a `Rest` residual, or declines and returns the event
/// unchanged.
///
/// Every implementor also proves the round-trip law, `lemma_round_trip`:
/// recombining what a successful narrowing produced yields the original
/// event.
pub trait Parser<Src, Dst, Rest>: Sized where Src: RecombineFrom<Self, Out = Dst, Rest = Rest> {
    /// The set of events this lens narrows.
    spec fn spec_accepts(&self, src: Src) -> bool;

    /// What an accepted event is narrowed into.
    spec fn spec_out(&self, src: Src) -> ParserOut<Dst, Rest>;

    /// Attempts to narrow one event.  A declined event comes back unchanged.
    fn parse(&self, src: Src) -> (r: Result<ParserOut<Dst, Rest>, Src>)
        ensures
            self.spec_accepts(src) ==> r == Ok::<ParserOut<Dst, Rest>, Src>(self.spec_out(src)),
            !self.spec_accepts(src) ==> r == Err::<ParserOut<Dst, Rest>, Src>(src),
    ;

    /// The round-trip law: recombining what a successful narrowing produced
    /// yields the original event.
    proof fn lemma_round_trip(&self, src: Src)
        ensures
            self.spec_accepts(src) ==> Src::spec_recombine(self.spec_out(src)) == src,
    ;
}

/// The round-trip law, for every lens at once: whenever a lens accepts an
/// event, recombining the narrowed value with the residual reconstructs the
/// event exactly.
pub proof fn lemma_lens_round_trip<Src, Dst, Rest, P>(p: P, src: Src)
    where
        P: Parser<Src, Dst, Rest>,
        Src: RecombineFrom<P, Out = Dst, Rest = Rest>,
    ensures
        p.spec_accepts(src) ==> Src::spec_recombine(p.spec_out(src)) == src,
{
    p.lemma_round_trip(src);
}

/// Composition of two lenses: the first narrows `Src` to `Mid`, the second
/// narrows `Mid` to `Dst`; residuals stack as a pair in forward order.
///
/// When the second stage declines, the composed lens reconstructs the
/// original `Src` through the first lens's backward direction, so callers
/// never observe the intermediate type.
pub struct MapParser<P1, P2, Mid, R1, R2, Dst>(P1, P2, PhantomData<(Mid, R1, R2, Dst)>);

impl<P1, P2, Mid, R1, R2, Dst> MapParser<P1, P2, Mid, R1, R2, Dst> {
    /// The outer (first) lens.
    pub closed spec fn first(self) -> P1 {
        self.0
    }

    /// The inner (second) lens.
    pub closed spec fn second(self) -> P2 {
        self.1
    }

    /// Chains two lenses.
    pub fn new(field0: P1, field1: P2) -> (r: Self)
        ensures
            r.first() == field0,
            r.second() == field1,
    {
        MapParser(field0, field1, PhantomData)
    }

    /// Borrows the outer lens.
    pub fn first_ref(&self) -> (r: &P1)
        ensures
            *r == self.first(),
    {
        &self.0
    }

    /// Borrows the inner lens.
    pub fn second_ref(&self) -> (r: &P2)
        ensures
            *r == self.second(),
    {
        &self.1
    }
}

/// A service that narrows each event through a lens and hands the narrowed
/// value to a handler.
///
/// When the lens declines, or the handler declines the narrowed value, the
/// original event is handed back unchanged — reconstructed through the
/// lens's backward direction in the latter case.
pub struct ParserHandler<NextUpd, Rest, ParserT, HandlerT> {
    parser: ParserT,
    handler: HandlerT,
    phantom: PhantomData<(NextUpd, Rest)>,
}

impl<NextUpd, Rest, ParserT, HandlerT> ParserHandler<NextUpd, Rest, ParserT, HandlerT> {
    /// The lens.
    pub closed spec fn parser(self) -> ParserT {
        self.parser
    }

    /// The handler for narrowed values.
    pub closed spec fn handler(self) -> HandlerT {
        self.handler
    }

    /// Binds a lens to a handler for the narrowed values.
    pub fn new<F: HandlerInto<HandlerT>>(parser: ParserT, handler: F) -> (r: Self)
        requires
            handler.ready(),
        ensures
            r.parser() == parser,
            r.handler() == handler.spec_into_handler(),
    {
        ParserHandler { parser, handler: handler.into_handler(), phantom: PhantomData }
    }
}

impl<Upd, E, NextUpd, Rest, ParserT, HandlerT> Handler<Upd, E> for ParserHandler<
    NextUpd,
    Rest,
    ParserT,
    HandlerT,
>
    where
        ParserT: Parser<Upd, NextUpd, Rest>,
        HandlerT: Handler<NextUpd, E>,
        Upd: RecombineFrom<ParserT, Out = NextUpd, Rest = Rest>,
{
    /// The lens accepts the event and the handler claims the narrowed value.
    open spec fn spec_claims(&self, upd: Upd) -> bool {
        &&& self.parser().spec_accepts(upd)
        &&& self.handler().spec_claims(self.parser().spec_out(upd).data)
    }

    /// The outcome is the handler's outcome on the narrowed value.
    open spec fn spec_post(&self, upd: Upd, out: HandleResult<E>) -> bool {
        self.handler().spec_post(self.parser().spec_out(upd).data, out)
    }

    fn handle(&self, data: Upd) -> (r: Result<HandleResult<E>, Upd>) {
        let ghost original = data;
        match self.parser.parse(data) {
            Ok(po) => {
                let (next, rest) = po.into_inner();
                match self.handler.handle(next) {
                    Ok(out) => Ok(out),
                    Err(next_back) => {
                        proof {
                            self.parser.lemma_round_trip(original);
                        }
                        Err(Upd::recombine(ParserOut::new(next_back, rest)))
                    },
                }
            },
            Err(upd) => Err(upd),
        }
    }
}

} // verus!
