//! The message layer: a guarded builder over the broad update type that
//! narrows to one message sub-kind, accumulates guard chains, and freezes
//! into a routing-table service.
//!
//! The builder keeps one open "alternative slot": `with_*` freezes the
//! previous slot into the enclosing conjunction and opens a fresh one,
//! `or_*` adds an alternative to the open slot, and `or_else` terminates the
//! slot with a fallback handler.  Attaching the terminal handler (`by`)
//! freezes whatever is still accumulated, so no partially-built guard is
//! lost.

use vstd::prelude::*;
use std::marker::PhantomData;
use crate::demux::{Demux, DemuxBuilder, first_match_at, no_match};
use crate::guard::{AnyGuard, Guard, Guards};
use crate::handler::{Handler, HandlerInto};
use crate::outcome::HandleResult;
use crate::parser::{MapParser, Parser, ParserOut, RecombineFrom};
use crate::types::{Chat, ForwardedFrom, Message, Update, User};
use crate::update_parser::UpdateParser;
use crate::updates::UpdateRest;

pub mod parser;

verus! {

impl<P1, P2> RecombineFrom<MapParser<P1, P2, Message, UpdateRest, (), Message>> for Update
    where
        Update: RecombineFrom<P1, Out = Message, Rest = UpdateRest>,
        Message: RecombineFrom<P2, Out = Message, Rest = ()>,
{
    type Out = Message;

    type Rest = (UpdateRest, ());

    /// Residuals unwind in reverse order: the kind lens reconstructs the
    /// message, the update lens reconstructs the update.
    open spec fn spec_recombine(info: ParserOut<Message, (UpdateRest, ())>) -> Update {
        <Update as RecombineFrom<P1>>::spec_recombine(
            ParserOut {
                data: <Message as RecombineFrom<P2>>::spec_recombine(
                    ParserOut { data: info.data, rest: info.rest.1 },
                ),
                rest: info.rest.0,
            },
        )
    }

    fn recombine(info: ParserOut<Message, (UpdateRest, ())>) -> (r: Update) {
        let (data, rest) = info.into_inner();
        let mes = <Message as RecombineFrom<P2>>::recombine(ParserOut::new(data, rest.1));
        <Update as RecombineFrom<P1>>::recombine(ParserOut::new(mes, rest.0))
    }
}

impl<P1, P2> Parser<Update, Message, (UpdateRest, ())> for MapParser<
    P1,
    P2,
    Message,
    UpdateRest,
    (),
    Message,
>
    where
        P1: Parser<Update, Message, UpdateRest>,
        P2: Parser<Message, Message, ()>,
        Update: RecombineFrom<P1, Out = Message, Rest = UpdateRest>,
        Message: RecombineFrom<P2, Out = Message, Rest = ()>,
{
    /// Both stages accept: the update carries a message, of the selected
    /// kind.
    open spec fn spec_accepts(&self, src: Update) -> bool {
        &&& self.first().spec_accepts(src)
        &&& self.second().spec_accepts(self.first().spec_out(src).data)
    }

    open spec fn spec_out(&self, src: Update) -> ParserOut<Message, (UpdateRest, ())> {
        ParserOut {
            data: self.second().spec_out(self.first().spec_out(src).data).data,
            rest: (
                self.first().spec_out(src).rest,
                self.second().spec_out(self.first().spec_out(src).data).rest,
            ),
        }
    }

    /// A failure of the second stage reconstructs the original update, not
    /// the intermediate message.
    fn parse(&self, src: Update) -> (r: Result<ParserOut<Message, (UpdateRest, ())>, Update>) {
        let ghost original = src;
        match self.first_ref().parse(src) {
            Ok(po) => {
                let (mes, r1) = po.into_inner();
                match self.second_ref().parse(mes) {
                    Ok(po2) => {
                        let (data, r2) = po2.into_inner();
                        Ok(ParserOut::new(data, (r1, r2)))
                    },
                    Err(mes_back) => {
                        proof {
                            self.first().lemma_round_trip(original);
                        }
                        Err(<Update as RecombineFrom<P1>>::recombine(ParserOut::new(mes_back, r1)))
                    },
                }
            },
            Err(back) => Err(back),
        }
    }

    proof fn lemma_round_trip(&self, src: Update) {
        if self.spec_accepts(src) {
            self.first().lemma_round_trip(src);
            self.second().lemma_round_trip(self.first().spec_out(src).data);
        }
    }
}

/// A chain service that silently absorbs, with a successful outcome, every
/// message failing its guard set, and passes every other message on.
pub struct GuardsHandler<G> {
    pub guards: Guards<Message, G>,
}

impl<G: Guard<Message>> GuardsHandler<G> {
    /// Wraps a guard set.
    pub fn new(guards: Guards<Message, G>) -> (r: Self)
        ensures
            r == (GuardsHandler { guards }),
    {
        GuardsHandler { guards }
    }
}

impl<E, G: Guard<Message>> Handler<Message, E> for GuardsHandler<G> {
    /// Claims exactly the messages that fail the guard set.
    open spec fn spec_claims(&self, upd: Message) -> bool {
        !self.guards.spec_check(&upd)
    }

    /// An absorbed message is reported as handled successfully.
    open spec fn spec_post(&self, upd: Message, out: HandleResult<E>) -> bool {
        out == HandleResult::<E>::Done
    }

    fn handle(&self, data: Message) -> (r: Result<HandleResult<E>, Message>) {
        if self.guards.check(&data) {
            Err(data)
        } else {
            Ok(HandleResult::Done)
        }
    }
}

/// A chain service that runs a fallback handler on every message failing
/// its guard, and passes every other message on.
pub struct GuardHandler<GG, H> {
    pub guard: GG,
    pub wrong_handler: H,
}

impl<GG, H> GuardHandler<GG, H> {
    /// Pairs a guard with the handler for the messages that fail it.
    pub fn new(guard: GG, wrong_handler: H) -> (r: Self)
        ensures
            r == (GuardHandler { guard, wrong_handler }),
    {
        GuardHandler { guard, wrong_handler }
    }
}

impl<E, GG: Guard<Message>, H: Handler<Message, E>> Handler<Message, E> for GuardHandler<GG, H> {
    /// Claims exactly the messages that fail the guard and that the
    /// fallback handler claims.
    open spec fn spec_claims(&self, upd: Message) -> bool {
        &&& !self.guard.spec_check(&upd)
        &&& self.wrong_handler.spec_claims(upd)
    }

    /// The fallback handler's outcome.
    open spec fn spec_post(&self, upd: Message, out: HandleResult<E>) -> bool {
        self.wrong_handler.spec_post(upd, out)
    }

    fn handle(&self, data: Message) -> (r: Result<HandleResult<E>, Message>) {
        if self.guard.check(&data) {
            Err(data)
        } else {
            self.wrong_handler.handle(data)
        }
    }
}

/// One entry of a message builder's internal alternative chain.
pub enum ChainService<G, H> {
    /// A frozen conjunction of guard slots.
    Conjunction(GuardsHandler<AnyGuard<Message, G>>),
    /// A guard slot terminated with a fallback handler.
    Fallback(GuardHandler<AnyGuard<Message, G>, H>),
}

impl<E, G, H> Handler<Message, E> for ChainService<G, H>
    where
        G: Guard<Message>,
        H: Handler<Message, E>,
{
    open spec fn spec_claims(&self, upd: Message) -> bool {
        match self {
            ChainService::Conjunction(h) => <GuardsHandler<AnyGuard<Message, G>> as Handler<
                Message,
                E,
            >>::spec_claims(h, upd),
            ChainService::Fallback(h) => <GuardHandler<AnyGuard<Message, G>, H> as Handler<
                Message,
                E,
            >>::spec_claims(h, upd),
        }
    }

    open spec fn spec_post(&self, upd: Message, out: HandleResult<E>) -> bool {
        match self {
            ChainService::Conjunction(h) => <GuardsHandler<AnyGuard<Message, G>> as Handler<
                Message,
                E,
            >>::spec_post(h, upd, out),
            ChainService::Fallback(h) => <GuardHandler<AnyGuard<Message, G>, H> as Handler<
                Message,
                E,
            >>::spec_post(h, upd, out),
        }
    }

    fn handle(&self, data: Message) -> (r: Result<HandleResult<E>, Message>) {
        match self {
            ChainService::Conjunction(h) => h.handle(data),
            ChainService::Fallback(h) => h.handle(data),
        }
    }
}

/// A builder for one message-kind service: an update lens, a kind lens, an
/// internal chain of guard services, and one open alternative slot.
pub struct MessageParser<UParser, ParserT, G, H, E> {
    update_parser: UParser,
    parser: ParserT,
    demux: DemuxBuilder<Message, E, ChainService<G, H>>,
    guards: Guards<Message, AnyGuard<Message, G>>,
    last_guard: Option<AnyGuard<Message, G>>,
}

impl<UParser, ParserT, G, H, E> MessageParser<UParser, ParserT, G, H, E>
    where
        G: Guard<Message>,
        H: Handler<Message, E>,
{
    /// The update lens.
    pub closed spec fn update_parser(self) -> UParser {
        self.update_parser
    }

    /// The kind lens.
    pub closed spec fn parser(self) -> ParserT {
        self.parser
    }

    /// The chain services frozen so far, in registration order.
    pub closed spec fn services(self) -> Seq<ChainService<G, H>> {
        self.demux.services()
    }

    /// The conjunction of frozen guard slots.
    pub closed spec fn guards(self) -> Guards<Message, AnyGuard<Message, G>> {
        self.guards
    }

    /// The open alternative slot, if one was started.
    pub closed spec fn last_guard(self) -> Option<AnyGuard<Message, G>> {
        self.last_guard
    }

    /// Whether any guard is still accumulated and not yet frozen.
    pub open spec fn pending(self) -> bool {
        self.guards().members().len() > 0 || self.last_guard() is Some
    }

    /// The guard slots a terminal step freezes: the conjunction plus the
    /// open slot, if any.
    pub open spec fn flushed_members(self) -> Seq<AnyGuard<Message, G>> {
        match self.last_guard() {
            Option::Some(prev) => self.guards().members().push(prev),
            Option::None => self.guards().members(),
        }
    }
}

/// The builder starts from the two lenses with nothing accumulated.
pub open spec fn fresh_builder<UParser, ParserT, G, H, E>(
    b: MessageParser<UParser, ParserT, G, H, E>,
    update_parser: UParser,
    kind: ParserT,
) -> bool
    where
        G: Guard<Message>,
        H: Handler<Message, E>,
{
    &&& b.update_parser() == update_parser
    &&& b.parser() == kind
    &&& b.services() =~= Seq::<ChainService<G, H>>::empty()
    &&& b.guards().members() =~= Seq::<AnyGuard<Message, G>>::empty()
    &&& b.last_guard() is None
}

/// How one conjunctive step transforms the builder: the open slot, if any,
/// is frozen into the conjunction, and the new guard opens a fresh slot.
pub open spec fn guard_step<UParser, ParserT, G, H, E>(
    pre: MessageParser<UParser, ParserT, G, H, E>,
    post: MessageParser<UParser, ParserT, G, H, E>,
    guard: G,
) -> bool
    where
        G: Guard<Message>,
        H: Handler<Message, E>,
{
    &&& post.update_parser() == pre.update_parser()
    &&& post.parser() == pre.parser()
    &&& post.services() == pre.services()
    &&& post.guards().members() == pre.flushed_members()
    &&& post.last_guard() is Some
    &&& post.last_guard()->0.alternatives() =~= seq![guard]
}

/// How one disjunctive step transforms the builder: the guard is added as
/// one more alternative of the open slot.
pub open spec fn or_step<UParser, ParserT, G, H, E>(
    pre: MessageParser<UParser, ParserT, G, H, E>,
    post: MessageParser<UParser, ParserT, G, H, E>,
    guard: G,
) -> bool
    where
        G: Guard<Message>,
        H: Handler<Message, E>,
{
    &&& post.update_parser() == pre.update_parser()
    &&& post.parser() == pre.parser()
    &&& post.services() == pre.services()
    &&& post.guards() == pre.guards()
    &&& post.last_guard() is Some
    &&& pre.last_guard() is Some
    &&& post.last_guard()->0.alternatives() == pre.last_guard()->0.alternatives().push(guard)
}

impl<UParser, ParserT, G, H, E> MessageParser<UParser, ParserT, G, H, E>
    where
        G: Guard<Message>,
        H: Handler<Message, E>,
{
    /// Starts a builder from an update lens and a kind lens.
    pub fn new(update_parser: UParser, parser: ParserT) -> (r: Self)
        ensures
            fresh_builder(r, update_parser, parser),
    {
        MessageParser {
            update_parser,
            parser,
            demux: DemuxBuilder::new(),
            guards: Guards::new(),
            last_guard: Option::None,
        }
    }

    /// Conjoins one more guard, opening a fresh alternative slot for it;
    /// the previous slot, if any, is frozen into the conjunction.
    pub fn with_guard(self, guard: G) -> (r: Self)
        ensures
            guard_step(self, r, guard),
    {
        let MessageParser { update_parser, parser, demux, mut guards, last_guard } = self;
        if let Option::Some(prev) = last_guard {
            guards.add_guard(prev);
        }
        MessageParser {
            update_parser,
            parser,
            demux,
            guards,
            last_guard: Option::Some(AnyGuard::new(guard)),
        }
    }

    /// Adds an alternative to the open guard slot.  A slot must have been
    /// opened by a conjunctive step first.
    pub fn or(self, guard: G) -> (r: Self)
        requires
            self.last_guard() is Some,
        ensures
            or_step(self, r, guard),
    {
        let MessageParser { update_parser, parser, demux, guards, last_guard } = self;
        match last_guard {
            Option::Some(prev) => MessageParser {
                update_parser,
                parser,
                demux,
                guards,
                last_guard: Option::Some(prev.or(guard)),
            },
            Option::None => unreached(),
        }
    }

    /// Terminates the open guard slot with a fallback handler: the frozen
    /// conjunction (if any) and then the terminated slot become chain
    /// services, and the accumulation starts afresh.
    pub fn or_else<F>(self, func: F) -> (r: Self)
        where
            F: HandlerInto<H>,
        requires
            self.last_guard() is Some,
            func.ready(),
        ensures
            r.update_parser() == self.update_parser(),
            r.parser() == self.parser(),
            r.guards().members() =~= Seq::<AnyGuard<Message, G>>::empty(),
            r.last_guard() is None,
            r.services() == (
                if self.guards().members().len() == 0 {
                    self.services()
                } else {
                    self.services().push(
                        ChainService::Conjunction(GuardsHandler { guards: self.guards() }),
                    )
                }
            ).push(
                ChainService::Fallback(
                    GuardHandler {
                        guard: self.last_guard()->0,
                        wrong_handler: func.spec_into_handler(),
                    },
                ),
            ),
    {
        let MessageParser { update_parser, parser, mut demux, guards, last_guard } = self;
        let prev_guard = match last_guard {
            Option::Some(prev) => prev,
            Option::None => unreached(),
        };
        let wrong_handler = func.into_handler();
        Self::create_guards_service(&mut demux, guards);
        demux.add_service(ChainService::Fallback(GuardHandler::new(prev_guard, wrong_handler)));
        MessageParser {
            update_parser,
            parser,
            demux,
            guards: Guards::new(),
            last_guard: Option::None,
        }
    }

    /// Freezes a non-empty conjunction into one absorbing chain service.
    fn create_guards_service(
        demux: &mut DemuxBuilder<Message, E, ChainService<G, H>>,
        guards: Guards<Message, AnyGuard<Message, G>>,
    )
        ensures
            final(demux).services() == (
                if guards.members().len() == 0 {
                    old(demux).services()
                } else {
                    old(demux).services().push(
                        ChainService::Conjunction(GuardsHandler { guards }),
                    )
                }
            ),
    {
        if !guards.is_empty() {
            demux.add_service(ChainService::Conjunction(GuardsHandler::new(guards)));
        }
    }

    /// Attaches the terminal handler: everything still accumulated is
    /// frozen first — no partially-built guard is lost — and the builder
    /// becomes a registrable service.
    pub fn by<H2, F>(self, f: F) -> (r: MessageHandler<
        MapParser<UParser, ParserT, Message, UpdateRest, (), Message>,
        H2,
        G,
        H,
        E,
    >)
        where
            F: HandlerInto<H2>,
            H2: Handler<Message, E>,
        requires
            f.ready(),
        ensures
            r.parser().first() == self.update_parser(),
            r.parser().second() == self.parser(),
            r.handler() == f.spec_into_handler(),
            !self.pending() ==> r.chain() == self.services(),
            self.pending() ==> {
                &&& r.chain().len() == self.services().len() + 1
                &&& (forall|i: int| 0 <= i < self.services().len() ==> r.chain()[i] == self.services()[i])
                &&& (r.chain().last() matches ChainService::Conjunction(gh)
                    && gh.guards.members() == self.flushed_members())
            },
    {
        let MessageParser { update_parser, parser, mut demux, mut guards, last_guard } = self;
        if let Option::Some(prev) = last_guard {
            guards.add_guard(prev);
        }
        Self::create_guards_service(&mut demux, guards);
        MessageHandler {
            parser: MapParser::new(update_parser, parser),
            handler: f.into_handler(),
            demux: demux.build(),
            phantom: PhantomData,
        }
    }
}

/// A frozen message-kind service: a composed lens, an internal chain of
/// guard services, and the terminal handler behind them.
pub struct MessageHandler<ParserT, HandlerT, G, HF, E> {
    parser: ParserT,
    handler: HandlerT,
    demux: Demux<Message, E, ChainService<G, HF>>,
    phantom: PhantomData<E>,
}

impl<ParserT, HandlerT, G, HF, E> MessageHandler<ParserT, HandlerT, G, HF, E>
    where
        G: Guard<Message>,
        HF: Handler<Message, E>,
{
    /// The composed lens.
    pub closed spec fn parser(self) -> ParserT {
        self.parser
    }

    /// The terminal handler.
    pub closed spec fn handler(self) -> HandlerT {
        self.handler
    }

    /// The internal chain services, in registration order.
    pub closed spec fn chain(self) -> Seq<ChainService<G, HF>> {
        self.demux.services()
    }
}

impl<ParserT, HandlerT, G, HF, E> Handler<Update, E> for MessageHandler<
    ParserT,
    HandlerT,
    G,
    HF,
    E,
>
    where
        ParserT: Parser<Update, Message, (UpdateRest, ())>,
        Update: RecombineFrom<ParserT, Out = Message, Rest = (UpdateRest, ())>,
        HandlerT: Handler<Message, E>,
        G: Guard<Message>,
        HF: Handler<Message, E>,
{
    /// The lens accepts the update, and either some chain service or the
    /// terminal handler claims the narrowed message.
    open spec fn spec_claims(&self, upd: Update) -> bool {
        &&& self.parser().spec_accepts(upd)
        &&& {
            let data = self.parser().spec_out(upd).data;
            !no_match(self.chain(), data) || self.handler().spec_claims(data)
        }
    }

    /// The outcome of the first matching chain service, or of the terminal
    /// handler when no chain service matches.
    open spec fn spec_post(&self, upd: Update, out: HandleResult<E>) -> bool {
        let data = self.parser().spec_out(upd).data;
        if !no_match(self.chain(), data) {
            exists|i: int|
                #[trigger] first_match_at(self.chain(), data, i)
                    && self.chain()[i].spec_post(data, out)
        } else {
            self.handler().spec_post(data, out)
        }
    }

    fn handle(&self, data: Update) -> (r: Result<HandleResult<E>, Update>) {
        let ghost original = data;
        match self.parser.parse(data) {
            Err(back) => Err(back),
            Ok(po) => {
                let (mes, rest) = po.into_inner();
                match self.demux.handle(mes) {
                    Ok(out) => Ok(out),
                    Err(mes_back) => match self.handler.handle(mes_back) {
                        Ok(out) => Ok(out),
                        Err(mes_final) => {
                            proof {
                                self.parser.lemma_round_trip(original);
                            }
                            Err(
                                <Update as RecombineFrom<ParserT>>::recombine(
                                    ParserOut::new(mes_final, rest),
                                ),
                            )
                        },
                    },
                }
            },
        }
    }
}

impl<P, E> UpdateParser<P, E> {
    /// Narrows further to ordinary messages, starting a guarded message builder.
    pub fn common<G, H>(self) -> (r: MessageParser<P, parser::Common, G, H, E>)
        where
            G: Guard<Message>,
            H: Handler<Message, E>,
        ensures
            fresh_builder(r, self.parser(), parser::Common),
    {
        MessageParser::new(self.into_inner(), parser::Common)
    }

    /// Narrows further to new-chat-members notices, starting a guarded message builder.
    pub fn new_chat_members<G, H>(self) -> (r: MessageParser<P, parser::NewChatMembers, G, H, E>)
        where
            G: Guard<Message>,
            H: Handler<Message, E>,
        ensures
            fresh_builder(r, self.parser(), parser::NewChatMembers),
    {
        MessageParser::new(self.into_inner(), parser::NewChatMembers)
    }

    /// Narrows further to left-chat-member notices, starting a guarded message builder.
    pub fn left_chat_member<G, H>(self) -> (r: MessageParser<P, parser::LeftChatMember, G, H, E>)
        where
            G: Guard<Message>,
            H: Handler<Message, E>,
        ensures
            fresh_builder(r, self.parser(), parser::LeftChatMember),
    {
        MessageParser::new(self.into_inner(), parser::LeftChatMember)
    }

    /// Narrows further to chat-title changes, starting a guarded message builder.
    pub fn new_chat_title<G, H>(self) -> (r: MessageParser<P, parser::NewChatTitle, G, H, E>)
        where
            G: Guard<Message>,
            H: Handler<Message, E>,
        ensures
            fresh_builder(r, self.parser(), parser::NewChatTitle),
    {
        MessageParser::new(self.into_inner(), parser::NewChatTitle)
    }

    /// Narrows further to chat-photo changes, starting a guarded message builder.
    pub fn new_chat_photo<G, H>(self) -> (r: MessageParser<P, parser::NewChatPhoto, G, H, E>)
        where
            G: Guard<Message>,
            H: Handler<Message, E>,
        ensures
            fresh_builder(r, self.parser(), parser::NewChatPhoto),
    {
        MessageParser::new(self.into_inner(), parser::NewChatPhoto)
    }

    /// Narrows further to chat-photo deletions, starting a guarded message builder.
    pub fn delete_chat_photo<G, H>(self) -> (r: MessageParser<P, parser::DeleteChatPhoto, G, H, E>)
        where
            G: Guard<Message>,
            H: Handler<Message, E>,
        ensures
            fresh_builder(r, self.parser(), parser::DeleteChatPhoto),
    {
        MessageParser::new(self.into_inner(), parser::DeleteChatPhoto)
    }

    /// Narrows further to group-creation notices, starting a guarded message builder.
    pub fn group_chat_created<G, H>(self) -> (r: MessageParser<P, parser::GroupChatCreated, G, H, E>)
        where
            G: Guard<Message>,
            H: Handler<Message, E>,
        ensures
            fresh_builder(r, self.parser(), parser::GroupChatCreated),
    {
        MessageParser::new(self.into_inner(), parser::GroupChatCreated)
    }

    /// Narrows further to supergroup-creation notices, starting a guarded message builder.
    pub fn supergroup_chat_created<G, H>(self) -> (r: MessageParser<P, parser::SupergroupChatCreated, G, H, E>)
        where
            G: Guard<Message>,
            H: Handler<Message, E>,
        ensures
            fresh_builder(r, self.parser(), parser::SupergroupChatCreated),
    {
        MessageParser::new(self.into_inner(), parser::SupergroupChatCreated)
    }

    /// Narrows further to channel-creation notices, starting a guarded message builder.
    pub fn channel_chat_created<G, H>(self) -> (r: MessageParser<P, parser::ChannelChatCreated, G, H, E>)
        where
            G: Guard<Message>,
            H: Handler<Message, E>,
        ensures
            fresh_builder(r, self.parser(), parser::ChannelChatCreated),
    {
        MessageParser::new(self.into_inner(), parser::ChannelChatCreated)
    }

    /// Narrows further to chat migrations, starting a guarded message builder.
    pub fn migrate<G, H>(self) -> (r: MessageParser<P, parser::Migrate, G, H, E>)
        where
            G: Guard<Message>,
            H: Handler<Message, E>,
        ensures
            fresh_builder(r, self.parser(), parser::Migrate),
    {
        MessageParser::new(self.into_inner(), parser::Migrate)
    }

    /// Narrows further to pinned-message notices, starting a guarded message builder.
    pub fn pinned<G, H>(self) -> (r: MessageParser<P, parser::Pinned, G, H, E>)
        where
            G: Guard<Message>,
            H: Handler<Message, E>,
        ensures
            fresh_builder(r, self.parser(), parser::Pinned),
    {
        MessageParser::new(self.into_inner(), parser::Pinned)
    }

    /// Narrows further to invoices, starting a guarded message builder.
    pub fn invoice<G, H>(self) -> (r: MessageParser<P, parser::Invoice, G, H, E>)
        where
            G: Guard<Message>,
            H: Handler<Message, E>,
        ensures
            fresh_builder(r, self.parser(), parser::Invoice),
    {
        MessageParser::new(self.into_inner(), parser::Invoice)
    }

    /// Narrows further to successful payments, starting a guarded message builder.
    pub fn successful_payment<G, H>(self) -> (r: MessageParser<P, parser::SuccessfulPayment, G, H, E>)
        where
            G: Guard<Message>,
            H: Handler<Message, E>,
        ensures
            fresh_builder(r, self.parser(), parser::SuccessfulPayment),
    {
        MessageParser::new(self.into_inner(), parser::SuccessfulPayment)
    }

    /// Narrows further to connected-website notices, starting a guarded message builder.
    pub fn connected_website<G, H>(self) -> (r: MessageParser<P, parser::ConnectedWebsite, G, H, E>)
        where
            G: Guard<Message>,
            H: Handler<Message, E>,
        ensures
            fresh_builder(r, self.parser(), parser::ConnectedWebsite),
    {
        MessageParser::new(self.into_inner(), parser::ConnectedWebsite)
    }

    /// Narrows further to passport-data notices, starting a guarded message builder.
    pub fn passport_data<G, H>(self) -> (r: MessageParser<P, parser::PassportData, G, H, E>)
        where
            G: Guard<Message>,
            H: Handler<Message, E>,
        ensures
            fresh_builder(r, self.parser(), parser::PassportData),
    {
        MessageParser::new(self.into_inner(), parser::PassportData)
    }

    /// Narrows further to dice throws, starting a guarded message builder.
    pub fn dice<G, H>(self) -> (r: MessageParser<P, parser::Dice, G, H, E>)
        where
            G: Guard<Message>,
            H: Handler<Message, E>,
        ensures
            fresh_builder(r, self.parser(), parser::Dice),
    {
        MessageParser::new(self.into_inner(), parser::Dice)
    }
}

/// Projects a guard on the message id to a guard on the whole message; a message
/// without such a field is rejected.
pub struct IdGuard<G>(pub G);

impl<G: Guard<i32>> Guard<Message> for IdGuard<G> {
    open spec fn spec_check(&self, update: &Message) -> bool {
        self.0.spec_check(&update.id)
    }

    fn check(&self, update: &Message) -> (r: bool) {
        self.0.check(&update.id)
    }
}

impl<UParser, ParserT, G, H, E> MessageParser<UParser, ParserT, IdGuard<G>, H, E>
    where
        G: Guard<i32>,
        H: Handler<Message, E>,
{
    /// Conjoins a guard on the message id, opening a fresh alternative slot.
    pub fn with_id(self, guard: G) -> (r: Self)
        ensures
            guard_step(self, r, IdGuard(guard)),
    {
        self.with_guard(IdGuard(guard))
    }

    /// Adds a guard on the message id as an alternative of the open slot.
    pub fn or_with_id(self, guard: G) -> (r: Self)
        requires
            self.last_guard() is Some,
        ensures
            or_step(self, r, IdGuard(guard)),
    {
        self.or(IdGuard(guard))
    }
}

/// Projects a guard on the message date to a guard on the whole message; a message
/// without such a field is rejected.
pub struct DateGuard<G>(pub G);

impl<G: Guard<i32>> Guard<Message> for DateGuard<G> {
    open spec fn spec_check(&self, update: &Message) -> bool {
        self.0.spec_check(&update.date)
    }

    fn check(&self, update: &Message) -> (r: bool) {
        self.0.check(&update.date)
    }
}

impl<UParser, ParserT, G, H, E> MessageParser<UParser, ParserT, DateGuard<G>, H, E>
    where
        G: Guard<i32>,
        H: Handler<Message, E>,
{
    /// Conjoins a guard on the message date, opening a fresh alternative slot.
    pub fn with_date(self, guard: G) -> (r: Self)
        ensures
            guard_step(self, r, DateGuard(guard)),
    {
        self.with_guard(DateGuard(guard))
    }

    /// Adds a guard on the message date as an alternative of the open slot.
    pub fn or_with_date(self, guard: G) -> (r: Self)
        requires
            self.last_guard() is Some,
        ensures
            or_step(self, r, DateGuard(guard)),
    {
        self.or(DateGuard(guard))
    }
}

/// Projects a guard on the chat to a guard on the whole message; a message
/// without such a field is rejected.
pub struct ChatGuard<G>(pub G);

impl<G: Guard<Chat>> Guard<Message> for ChatGuard<G> {
    open spec fn spec_check(&self, update: &Message) -> bool {
        self.0.spec_check(&update.chat)
    }

    fn check(&self, update: &Message) -> (r: bool) {
        self.0.check(&update.chat)
    }
}

impl<UParser, ParserT, G, H, E> MessageParser<UParser, ParserT, ChatGuard<G>, H, E>
    where
        G: Guard<Chat>,
        H: Handler<Message, E>,
{
    /// Conjoins a guard on the chat, opening a fresh alternative slot.
    pub fn with_chat(self, guard: G) -> (r: Self)
        ensures
            guard_step(self, r, ChatGuard(guard)),
    {
        self.with_guard(ChatGuard(guard))
    }

    /// Adds a guard on the chat as an alternative of the open slot.
    pub fn or_with_chat(self, guard: G) -> (r: Self)
        requires
            self.last_guard() is Some,
        ensures
            or_step(self, r, ChatGuard(guard)),
    {
        self.or(ChatGuard(guard))
    }
}

/// Projects a guard on the chat id to a guard on the whole message; a message
/// without such a field is rejected.
pub struct ChatIdGuard<G>(pub G);

impl<G: Guard<i64>> Guard<Message> for ChatIdGuard<G> {
    open spec fn spec_check(&self, update: &Message) -> bool {
        self.0.spec_check(&update.chat.id)
    }

    fn check(&self, update: &Message) -> (r: bool) {
        self.0.check(&update.chat.id)
    }
}

impl<UParser, ParserT, G, H, E> MessageParser<UParser, ParserT, ChatIdGuard<G>, H, E>
    where
        G: Guard<i64>,
        H: Handler<Message, E>,
{
    /// Conjoins a guard on the chat id, opening a fresh alternative slot.
    pub fn with_chat_id(self, guard: G) -> (r: Self)
        ensures
            guard_step(self, r, ChatIdGuard(guard)),
    {
        self.with_guard(ChatIdGuard(guard))
    }

    /// Adds a guard on the chat id as an alternative of the open slot.
    pub fn or_with_chat_id(self, guard: G) -> (r: Self)
        requires
            self.last_guard() is Some,
        ensures
            or_step(self, r, ChatIdGuard(guard)),
    {
        self.or(ChatIdGuard(guard))
    }
}

/// Projects a guard on the via-bot user to a guard on the whole message; a message
/// without such a field is rejected.
pub struct ViaBotGuard<G>(pub G);

impl<G: Guard<User>> Guard<Message> for ViaBotGuard<G> {
    open spec fn spec_check(&self, update: &Message) -> bool {
        match update.via_bot { Option::Some(b) => self.0.spec_check(&b), Option::None => false }
    }

    fn check(&self, update: &Message) -> (r: bool) {
        match &update.via_bot { Option::Some(b) => self.0.check(b), Option::None => false }
    }
}

impl<UParser, ParserT, G, H, E> MessageParser<UParser, ParserT, ViaBotGuard<G>, H, E>
    where
        G: Guard<User>,
        H: Handler<Message, E>,
{
    /// Conjoins a guard on the via-bot user, opening a fresh alternative slot.
    pub fn with_via_bot(self, guard: G) -> (r: Self)
        ensures
            guard_step(self, r, ViaBotGuard(guard)),
    {
        self.with_guard(ViaBotGuard(guard))
    }

    /// Adds a guard on the via-bot user as an alternative of the open slot.
    pub fn or_with_via_bot(self, guard: G) -> (r: Self)
        requires
            self.last_guard() is Some,
        ensures
            or_step(self, r, ViaBotGuard(guard)),
    {
        self.or(ViaBotGuard(guard))
    }
}

/// Projects a guard on the sender to a guard on the whole message; a message
/// without such a field is rejected.
pub struct FromGuard<G>(pub G);

impl<G: Guard<User>> Guard<Message> for FromGuard<G> {
    open spec fn spec_check(&self, update: &Message) -> bool {
        match update.spec_from() { Option::Some(u) => self.0.spec_check(&u), Option::None => false }
    }

    fn check(&self, update: &Message) -> (r: bool) {
        match update.from() { Option::Some(u) => self.0.check(u), Option::None => false }
    }
}

impl<UParser, ParserT, G, H, E> MessageParser<UParser, ParserT, FromGuard<G>, H, E>
    where
        G: Guard<User>,
        H: Handler<Message, E>,
{
    /// Conjoins a guard on the sender, opening a fresh alternative slot.
    pub fn with_from(self, guard: G) -> (r: Self)
        ensures
            guard_step(self, r, FromGuard(guard)),
    {
        self.with_guard(FromGuard(guard))
    }

    /// Adds a guard on the sender as an alternative of the open slot.
    pub fn or_with_from(self, guard: G) -> (r: Self)
        requires
            self.last_guard() is Some,
        ensures
            or_step(self, r, FromGuard(guard)),
    {
        self.or(FromGuard(guard))
    }
}

/// Projects a guard on the forward origin to a guard on the whole message; a message
/// without such a field is rejected.
pub struct ForwardFromGuard<G>(pub G);

impl<G: Guard<ForwardedFrom>> Guard<Message> for ForwardFromGuard<G> {
    open spec fn spec_check(&self, update: &Message) -> bool {
        match update.spec_forward_from() { Option::Some(f) => self.0.spec_check(&f), Option::None => false }
    }

    fn check(&self, update: &Message) -> (r: bool) {
        match update.forward_from() { Option::Some(f) => self.0.check(f), Option::None => false }
    }
}

impl<UParser, ParserT, G, H, E> MessageParser<UParser, ParserT, ForwardFromGuard<G>, H, E>
    where
        G: Guard<ForwardedFrom>,
        H: Handler<Message, E>,
{
    /// Conjoins a guard on the forward origin, opening a fresh alternative slot.
    pub fn with_forward_from(self, guard: G) -> (r: Self)
        ensures
            guard_step(self, r, ForwardFromGuard(guard)),
    {
        self.with_guard(ForwardFromGuard(guard))
    }

    /// Adds a guard on the forward origin as an alternative of the open slot.
    pub fn or_with_forward_from(self, guard: G) -> (r: Self)
        requires
            self.last_guard() is Some,
        ensures
            or_step(self, r, ForwardFromGuard(guard)),
    {
        self.or(ForwardFromGuard(guard))
    }
}

/// Projects a guard on the forward source channel to a guard on the whole message; a message
/// without such a field is rejected.
pub struct ForwardFromChatGuard<G>(pub G);

impl<G: Guard<Chat>> Guard<Message> for ForwardFromChatGuard<G> {
    open spec fn spec_check(&self, update: &Message) -> bool {
        match update.spec_forward_from_chat() { Option::Some(c) => self.0.spec_check(&c), Option::None => false }
    }

    fn check(&self, update: &Message) -> (r: bool) {
        match update.forward_from_chat() { Option::Some(c) => self.0.check(c), Option::None => false }
    }
}

impl<UParser, ParserT, G, H, E> MessageParser<UParser, ParserT, ForwardFromChatGuard<G>, H, E>
    where
        G: Guard<Chat>,
        H: Handler<Message, E>,
{
    /// Conjoins a guard on the forward source channel, opening a fresh alternative slot.
    pub fn with_forward_from_chat(self, guard: G) -> (r: Self)
        ensures
            guard_step(self, r, ForwardFromChatGuard(guard)),
    {
        self.with_guard(ForwardFromChatGuard(guard))
    }

    /// Adds a guard on the forward source channel as an alternative of the open slot.
    pub fn or_with_forward_from_chat(self, guard: G) -> (r: Self)
        requires
            self.last_guard() is Some,
        ensures
            or_step(self, r, ForwardFromChatGuard(guard)),
    {
        self.or(ForwardFromChatGuard(guard))
    }
}

/// Projects a guard on the forwarded message id to a guard on the whole message; a message
/// without such a field is rejected.
pub struct ForwardFromMessageIdGuard<G>(pub G);

impl<G: Guard<i32>> Guard<Message> for ForwardFromMessageIdGuard<G> {
    open spec fn spec_check(&self, update: &Message) -> bool {
        match update.spec_forward_from_message_id() { Option::Some(id) => self.0.spec_check(&id), Option::None => false }
    }

    fn check(&self, update: &Message) -> (r: bool) {
        match update.forward_from_message_id() { Option::Some(id) => self.0.check(&id), Option::None => false }
    }
}

impl<UParser, ParserT, G, H, E> MessageParser<UParser, ParserT, ForwardFromMessageIdGuard<G>, H, E>
    where
        G: Guard<i32>,
        H: Handler<Message, E>,
{
    /// Conjoins a guard on the forwarded message id, opening a fresh alternative slot.
    pub fn with_forward_from_message_id(self, guard: G) -> (r: Self)
        ensures
            guard_step(self, r, ForwardFromMessageIdGuard(guard)),
    {
        self.with_guard(ForwardFromMessageIdGuard(guard))
    }

    /// Adds a guard on the forwarded message id as an alternative of the open slot.
    pub fn or_with_forward_from_message_id(self, guard: G) -> (r: Self)
        requires
            self.last_guard() is Some,
        ensures
            or_step(self, r, ForwardFromMessageIdGuard(guard)),
    {
        self.or(ForwardFromMessageIdGuard(guard))
    }
}

/// Projects a guard on the forward signature to a guard on the whole message; a message
/// without such a field is rejected.
pub struct ForwardSignatureGuard<G>(pub G);

impl<G: Guard<String>> Guard<Message> for ForwardSignatureGuard<G> {
    open spec fn spec_check(&self, update: &Message) -> bool {
        match update.spec_forward_signature() { Option::Some(s) => self.0.spec_check(&s), Option::None => false }
    }

    fn check(&self, update: &Message) -> (r: bool) {
        match update.forward_signature() { Option::Some(s) => self.0.check(s), Option::None => false }
    }
}

impl<UParser, ParserT, G, H, E> MessageParser<UParser, ParserT, ForwardSignatureGuard<G>, H, E>
    where
        G: Guard<String>,
        H: Handler<Message, E>,
{
    /// Conjoins a guard on the forward signature, opening a fresh alternative slot.
    pub fn with_forward_signature(self, guard: G) -> (r: Self)
        ensures
            guard_step(self, r, ForwardSignatureGuard(guard)),
    {
        self.with_guard(ForwardSignatureGuard(guard))
    }

    /// Adds a guard on the forward signature as an alternative of the open slot.
    pub fn or_with_forward_signature(self, guard: G) -> (r: Self)
        requires
            self.last_guard() is Some,
        ensures
            or_step(self, r, ForwardSignatureGuard(guard)),
    {
        self.or(ForwardSignatureGuard(guard))
    }
}

/// Projects a guard on the forward date to a guard on the whole message; a message
/// without such a field is rejected.
pub struct ForwardDateGuard<G>(pub G);

impl<G: Guard<i32>> Guard<Message> for ForwardDateGuard<G> {
    open spec fn spec_check(&self, update: &Message) -> bool {
        match update.spec_forward_date() { Option::Some(d) => self.0.spec_check(&d), Option::None => false }
    }

    fn check(&self, update: &Message) -> (r: bool) {
        match update.forward_date() { Option::Some(d) => self.0.check(&d), Option::None => false }
    }
}

impl<UParser, ParserT, G, H, E> MessageParser<UParser, ParserT, ForwardDateGuard<G>, H, E>
    where
        G: Guard<i32>,
        H: Handler<Message, E>,
{
    /// Conjoins a guard on the forward date, opening a fresh alternative slot.
    pub fn with_forward_date(self, guard: G) -> (r: Self)
        ensures
            guard_step(self, r, ForwardDateGuard(guard)),
    {
        self.with_guard(ForwardDateGuard(guard))
    }

    /// Adds a guard on the forward date as an alternative of the open slot.
    pub fn or_with_forward_date(self, guard: G) -> (r: Self)
        requires
            self.last_guard() is Some,
        ensures
            or_step(self, r, ForwardDateGuard(guard)),
    {
        self.or(ForwardDateGuard(guard))
    }
}

/// Projects a guard on the message text to a guard on the whole message; a message
/// without such a field is rejected.
pub struct TextGuard<G>(pub G);

impl<G: Guard<String>> Guard<Message> for TextGuard<G> {
    open spec fn spec_check(&self, update: &Message) -> bool {
        match update.spec_text() { Option::Some(t) => self.0.spec_check(&t), Option::None => false }
    }

    fn check(&self, update: &Message) -> (r: bool) {
        match update.text() { Option::Some(t) => self.0.check(t), Option::None => false }
    }
}

impl<UParser, ParserT, G, H, E> MessageParser<UParser, ParserT, TextGuard<G>, H, E>
    where
        G: Guard<String>,
        H: Handler<Message, E>,
{
    /// Conjoins a guard on the message text, opening a fresh alternative slot.
    pub fn with_text(self, guard: G) -> (r: Self)
        ensures
            guard_step(self, r, TextGuard(guard)),
    {
        self.with_guard(TextGuard(guard))
    }

    /// Adds a guard on the message text as an alternative of the open slot.
    pub fn or_with_text(self, guard: G) -> (r: Self)
        requires
            self.last_guard() is Some,
        ensures
            or_step(self, r, TextGuard(guard)),
    {
        self.or(TextGuard(guard))
    }
}

} // verus!
