//! Marker lenses over the broad update type: one unit struct per update
//! sub-kind, each implementing the forward direction ([`Parser`]) with its
//! backward direction ([`RecombineFrom`]) and the round-trip law.
//!
//! Narrowing splits an update into the sub-kind's payload and an
//! [`UpdateRest`] residual holding the update id; recombining restores the
//! very update that was taken apart.

use vstd::prelude::*;
use crate::parser::{Parser, ParserOut, RecombineFrom};
use crate::types;
use crate::types::UpdateKind;
use crate::update_parser::ParseUpdate;
use crate::updates::UpdateRest;

verus! {

/// Selects every update, whole; the identity lens.
#[derive(Debug, Clone, Copy, PartialEq, Eq)]
pub struct Update;

impl Parser<types::Update, types::Update, ()> for Update {
    open spec fn spec_accepts(&self, src: types::Update) -> bool {
        true
    }

    open spec fn spec_out(&self, src: types::Update) -> ParserOut<types::Update, ()> {
        ParserOut { data: src, rest: () }
    }

    fn parse(&self, src: types::Update) -> (r: Result<ParserOut<types::Update, ()>, types::Update>) {
        Ok(ParserOut::new(src, ()))
    }

    proof fn lemma_round_trip(&self, src: types::Update) {
    }
}

impl RecombineFrom<Update> for types::Update {
    type Out = types::Update;

    type Rest = ();

    open spec fn spec_recombine(info: ParserOut<types::Update, ()>) -> types::Update {
        info.data
    }

    fn recombine(info: ParserOut<types::Update, ()>) -> (r: types::Update) {
        info.data
    }
}

/// Selects updates carrying ordinary messages.
#[derive(Debug, Clone, Copy, PartialEq, Eq)]
pub struct Message;

impl Parser<types::Update, types::Message, UpdateRest> for Message {
    open spec fn spec_accepts(&self, src: types::Update) -> bool {
        src.kind is Message
    }

    open spec fn spec_out(&self, src: types::Update) -> ParserOut<types::Message, UpdateRest> {
        match src.kind {
            UpdateKind::Message(data) => ParserOut { data, rest: UpdateRest(src.id) },
            _ => arbitrary(),
        }
    }

    fn parse(&self, src: types::Update) -> (r: Result<
        ParserOut<types::Message, UpdateRest>,
        types::Update,
    >) {
        let types::Update { id, kind } = src;
        match kind {
            UpdateKind::Message(data) => Ok(ParserOut::new(data, UpdateRest(id))),
            other => Err(types::Update { id, kind: other }),
        }
    }

    proof fn lemma_round_trip(&self, src: types::Update) {
    }
}

impl RecombineFrom<Message> for types::Update {
    type Out = types::Message;

    type Rest = UpdateRest;

    open spec fn spec_recombine(info: ParserOut<types::Message, UpdateRest>) -> types::Update {
        types::Update { id: info.rest.0, kind: UpdateKind::Message(info.data) }
    }

    fn recombine(info: ParserOut<types::Message, UpdateRest>) -> (r: types::Update) {
        let (data, rest) = info.into_inner();
        types::Update { id: rest.0, kind: UpdateKind::Message(data) }
    }
}

/// Selects updates carrying edited messages.
#[derive(Debug, Clone, Copy, PartialEq, Eq)]
pub struct EditedMessage;

impl Parser<types::Update, types::Message, UpdateRest> for EditedMessage {
    open spec fn spec_accepts(&self, src: types::Update) -> bool {
        src.kind is EditedMessage
    }

    open spec fn spec_out(&self, src: types::Update) -> ParserOut<types::Message, UpdateRest> {
        match src.kind {
            UpdateKind::EditedMessage(data) => ParserOut { data, rest: UpdateRest(src.id) },
            _ => arbitrary(),
        }
    }

    fn parse(&self, src: types::Update) -> (r: Result<
        ParserOut<types::Message, UpdateRest>,
        types::Update,
    >) {
        let types::Update { id, kind } = src;
        match kind {
            UpdateKind::EditedMessage(data) => Ok(ParserOut::new(data, UpdateRest(id))),
            other => Err(types::Update { id, kind: other }),
        }
    }

    proof fn lemma_round_trip(&self, src: types::Update) {
    }
}

impl RecombineFrom<EditedMessage> for types::Update {
    type Out = types::Message;

    type Rest = UpdateRest;

    open spec fn spec_recombine(info: ParserOut<types::Message, UpdateRest>) -> types::Update {
        types::Update { id: info.rest.0, kind: UpdateKind::EditedMessage(info.data) }
    }

    fn recombine(info: ParserOut<types::Message, UpdateRest>) -> (r: types::Update) {
        let (data, rest) = info.into_inner();
        types::Update { id: rest.0, kind: UpdateKind::EditedMessage(data) }
    }
}

/// Selects updates carrying channel posts.
#[derive(Debug, Clone, Copy, PartialEq, Eq)]
pub struct ChannelPost;

impl Parser<types::Update, types::Message, UpdateRest> for ChannelPost {
    open spec fn spec_accepts(&self, src: types::Update) -> bool {
        src.kind is ChannelPost
    }

    open spec fn spec_out(&self, src: types::Update) -> ParserOut<types::Message, UpdateRest> {
        match src.kind {
            UpdateKind::ChannelPost(data) => ParserOut { data, rest: UpdateRest(src.id) },
            _ => arbitrary(),
        }
    }

    fn parse(&self, src: types::Update) -> (r: Result<
        ParserOut<types::Message, UpdateRest>,
        types::Update,
    >) {
        let types::Update { id, kind } = src;
        match kind {
            UpdateKind::ChannelPost(data) => Ok(ParserOut::new(data, UpdateRest(id))),
            other => Err(types::Update { id, kind: other }),
        }
    }

    proof fn lemma_round_trip(&self, src: types::Update) {
    }
}

impl RecombineFrom<ChannelPost> for types::Update {
    type Out = types::Message;

    type Rest = UpdateRest;

    open spec fn spec_recombine(info: ParserOut<types::Message, UpdateRest>) -> types::Update {
        types::Update { id: info.rest.0, kind: UpdateKind::ChannelPost(info.data) }
    }

    fn recombine(info: ParserOut<types::Message, UpdateRest>) -> (r: types::Update) {
        let (data, rest) = info.into_inner();
        types::Update { id: rest.0, kind: UpdateKind::ChannelPost(data) }
    }
}

/// Selects updates carrying edited channel posts.
#[derive(Debug, Clone, Copy, PartialEq, Eq)]
pub struct EditedChannelPost;

impl Parser<types::Update, types::Message, UpdateRest> for EditedChannelPost {
    open spec fn spec_accepts(&self, src: types::Update) -> bool {
        src.kind is EditedChannelPost
    }

    open spec fn spec_out(&self, src: types::Update) -> ParserOut<types::Message, UpdateRest> {
        match src.kind {
            UpdateKind::EditedChannelPost(data) => ParserOut { data, rest: UpdateRest(src.id) },
            _ => arbitrary(),
        }
    }

    fn parse(&self, src: types::Update) -> (r: Result<
        ParserOut<types::Message, UpdateRest>,
        types::Update,
    >) {
        let types::Update { id, kind } = src;
        match kind {
            UpdateKind::EditedChannelPost(data) => Ok(ParserOut::new(data, UpdateRest(id))),
            other => Err(types::Update { id, kind: other }),
        }
    }

    proof fn lemma_round_trip(&self, src: types::Update) {
    }
}

impl RecombineFrom<EditedChannelPost> for types::Update {
    type Out = types::Message;

    type Rest = UpdateRest;

    open spec fn spec_recombine(info: ParserOut<types::Message, UpdateRest>) -> types::Update {
        types::Update { id: info.rest.0, kind: UpdateKind::EditedChannelPost(info.data) }
    }

    fn recombine(info: ParserOut<types::Message, UpdateRest>) -> (r: types::Update) {
        let (data, rest) = info.into_inner();
        types::Update { id: rest.0, kind: UpdateKind::EditedChannelPost(data) }
    }
}

/// Selects updates carrying inline queries.
#[derive(Debug, Clone, Copy, PartialEq, Eq)]
pub struct InlineQuery;

impl Parser<types::Update, types::InlineQuery, UpdateRest> for InlineQuery {
    open spec fn spec_accepts(&self, src: types::Update) -> bool {
        src.kind is InlineQuery
    }

    open spec fn spec_out(&self, src: types::Update) -> ParserOut<types::InlineQuery, UpdateRest> {
        match src.kind {
            UpdateKind::InlineQuery(data) => ParserOut { data, rest: UpdateRest(src.id) },
            _ => arbitrary(),
        }
    }

    fn parse(&self, src: types::Update) -> (r: Result<
        ParserOut<types::InlineQuery, UpdateRest>,
        types::Update,
    >) {
        let types::Update { id, kind } = src;
        match kind {
            UpdateKind::InlineQuery(data) => Ok(ParserOut::new(data, UpdateRest(id))),
            other => Err(types::Update { id, kind: other }),
        }
    }

    proof fn lemma_round_trip(&self, src: types::Update) {
    }
}

impl RecombineFrom<InlineQuery> for types::Update {
    type Out = types::InlineQuery;

    type Rest = UpdateRest;

    open spec fn spec_recombine(info: ParserOut<types::InlineQuery, UpdateRest>) -> types::Update {
        types::Update { id: info.rest.0, kind: UpdateKind::InlineQuery(info.data) }
    }

    fn recombine(info: ParserOut<types::InlineQuery, UpdateRest>) -> (r: types::Update) {
        let (data, rest) = info.into_inner();
        types::Update { id: rest.0, kind: UpdateKind::InlineQuery(data) }
    }
}

/// Selects updates carrying chosen inline results.
#[derive(Debug, Clone, Copy, PartialEq, Eq)]
pub struct ChosenInlineResult;

impl Parser<types::Update, types::ChosenInlineResult, UpdateRest> for ChosenInlineResult {
    open spec fn spec_accepts(&self, src: types::Update) -> bool {
        src.kind is ChosenInlineResult
    }

    open spec fn spec_out(&self, src: types::Update) -> ParserOut<types::ChosenInlineResult, UpdateRest> {
        match src.kind {
            UpdateKind::ChosenInlineResult(data) => ParserOut { data, rest: UpdateRest(src.id) },
            _ => arbitrary(),
        }
    }

    fn parse(&self, src: types::Update) -> (r: Result<
        ParserOut<types::ChosenInlineResult, UpdateRest>,
        types::Update,
    >) {
        let types::Update { id, kind } = src;
        match kind {
            UpdateKind::ChosenInlineResult(data) => Ok(ParserOut::new(data, UpdateRest(id))),
            other => Err(types::Update { id, kind: other }),
        }
    }

    proof fn lemma_round_trip(&self, src: types::Update) {
    }
}

impl RecombineFrom<ChosenInlineResult> for types::Update {
    type Out = types::ChosenInlineResult;

    type Rest = UpdateRest;

    open spec fn spec_recombine(info: ParserOut<types::ChosenInlineResult, UpdateRest>) -> types::Update {
        types::Update { id: info.rest.0, kind: UpdateKind::ChosenInlineResult(info.data) }
    }

    fn recombine(info: ParserOut<types::ChosenInlineResult, UpdateRest>) -> (r: types::Update) {
        let (data, rest) = info.into_inner();
        types::Update { id: rest.0, kind: UpdateKind::ChosenInlineResult(data) }
    }
}

/// Selects updates carrying callback queries.
#[derive(Debug, Clone, Copy, PartialEq, Eq)]
pub struct CallbackQuery;

impl Parser<types::Update, types::CallbackQuery, UpdateRest> for CallbackQuery {
    open spec fn spec_accepts(&self, src: types::Update) -> bool {
        src.kind is CallbackQuery
    }

    open spec fn spec_out(&self, src: types::Update) -> ParserOut<types::CallbackQuery, UpdateRest> {
        match src.kind {
            UpdateKind::CallbackQuery(data) => ParserOut { data, rest: UpdateRest(src.id) },
            _ => arbitrary(),
        }
    }

    fn parse(&self, src: types::Update) -> (r: Result<
        ParserOut<types::CallbackQuery, UpdateRest>,
        types::Update,
    >) {
        let types::Update { id, kind } = src;
        match kind {
            UpdateKind::CallbackQuery(data) => Ok(ParserOut::new(data, UpdateRest(id))),
            other => Err(types::Update { id, kind: other }),
        }
    }

    proof fn lemma_round_trip(&self, src: types::Update) {
    }
}

impl RecombineFrom<CallbackQuery> for types::Update {
    type Out = types::CallbackQuery;

    type Rest = UpdateRest;

    open spec fn spec_recombine(info: ParserOut<types::CallbackQuery, UpdateRest>) -> types::Update {
        types::Update { id: info.rest.0, kind: UpdateKind::CallbackQuery(info.data) }
    }

    fn recombine(info: ParserOut<types::CallbackQuery, UpdateRest>) -> (r: types::Update) {
        let (data, rest) = info.into_inner();
        types::Update { id: rest.0, kind: UpdateKind::CallbackQuery(data) }
    }
}

/// Selects updates carrying shipping queries.
#[derive(Debug, Clone, Copy, PartialEq, Eq)]
pub struct ShippingQuery;

impl Parser<types::Update, types::ShippingQuery, UpdateRest> for ShippingQuery {
    open spec fn spec_accepts(&self, src: types::Update) -> bool {
        src.kind is ShippingQuery
    }

    open spec fn spec_out(&self, src: types::Update) -> ParserOut<types::ShippingQuery, UpdateRest> {
        match src.kind {
            UpdateKind::ShippingQuery(data) => ParserOut { data, rest: UpdateRest(src.id) },
            _ => arbitrary(),
        }
    }

    fn parse(&self, src: types::Update) -> (r: Result<
        ParserOut<types::ShippingQuery, UpdateRest>,
        types::Update,
    >) {
        let types::Update { id, kind } = src;
        match kind {
            UpdateKind::ShippingQuery(data) => Ok(ParserOut::new(data, UpdateRest(id))),
            other => Err(types::Update { id, kind: other }),
        }
    }

    proof fn lemma_round_trip(&self, src: types::Update) {
    }
}

impl RecombineFrom<ShippingQuery> for types::Update {
    type Out = types::ShippingQuery;

    type Rest = UpdateRest;

    open spec fn spec_recombine(info: ParserOut<types::ShippingQuery, UpdateRest>) -> types::Update {
        types::Update { id: info.rest.0, kind: UpdateKind::ShippingQuery(info.data) }
    }

    fn recombine(info: ParserOut<types::ShippingQuery, UpdateRest>) -> (r: types::Update) {
        let (data, rest) = info.into_inner();
        types::Update { id: rest.0, kind: UpdateKind::ShippingQuery(data) }
    }
}

/// Selects updates carrying pre-checkout queries.
#[derive(Debug, Clone, Copy, PartialEq, Eq)]
pub struct PreCheckoutQuery;

impl Parser<types::Update, types::PreCheckoutQuery, UpdateRest> for PreCheckoutQuery {
    open spec fn spec_accepts(&self, src: types::Update) -> bool {
        src.kind is PreCheckoutQuery
    }

    open spec fn spec_out(&self, src: types::Update) -> ParserOut<types::PreCheckoutQuery, UpdateRest> {
        match src.kind {
            UpdateKind::PreCheckoutQuery(data) => ParserOut { data, rest: UpdateRest(src.id) },
            _ => arbitrary(),
        }
    }

    fn parse(&self, src: types::Update) -> (r: Result<
        ParserOut<types::PreCheckoutQuery, UpdateRest>,
        types::Update,
    >) {
        let types::Update { id, kind } = src;
        match kind {
            UpdateKind::PreCheckoutQuery(data) => Ok(ParserOut::new(data, UpdateRest(id))),
            other => Err(types::Update { id, kind: other }),
        }
    }

    proof fn lemma_round_trip(&self, src: types::Update) {
    }
}

impl RecombineFrom<PreCheckoutQuery> for types::Update {
    type Out = types::PreCheckoutQuery;

    type Rest = UpdateRest;

    open spec fn spec_recombine(info: ParserOut<types::PreCheckoutQuery, UpdateRest>) -> types::Update {
        types::Update { id: info.rest.0, kind: UpdateKind::PreCheckoutQuery(info.data) }
    }

    fn recombine(info: ParserOut<types::PreCheckoutQuery, UpdateRest>) -> (r: types::Update) {
        let (data, rest) = info.into_inner();
        types::Update { id: rest.0, kind: UpdateKind::PreCheckoutQuery(data) }
    }
}

/// Selects updates carrying polls.
#[derive(Debug, Clone, Copy, PartialEq, Eq)]
pub struct Poll;

impl Parser<types::Update, types::Poll, UpdateRest> for Poll {
    open spec fn spec_accepts(&self, src: types::Update) -> bool {
        src.kind is Poll
    }

    open spec fn spec_out(&self, src: types::Update) -> ParserOut<types::Poll, UpdateRest> {
        match src.kind {
            UpdateKind::Poll(data) => ParserOut { data, rest: UpdateRest(src.id) },
            _ => arbitrary(),
        }
    }

    fn parse(&self, src: types::Update) -> (r: Result<
        ParserOut<types::Poll, UpdateRest>,
        types::Update,
    >) {
        let types::Update { id, kind } = src;
        match kind {
            UpdateKind::Poll(data) => Ok(ParserOut::new(data, UpdateRest(id))),
            other => Err(types::Update { id, kind: other }),
        }
    }

    proof fn lemma_round_trip(&self, src: types::Update) {
    }
}

impl RecombineFrom<Poll> for types::Update {
    type Out = types::Poll;

    type Rest = UpdateRest;

    open spec fn spec_recombine(info: ParserOut<types::Poll, UpdateRest>) -> types::Update {
        types::Update { id: info.rest.0, kind: UpdateKind::Poll(info.data) }
    }

    fn recombine(info: ParserOut<types::Poll, UpdateRest>) -> (r: types::Update) {
        let (data, rest) = info.into_inner();
        types::Update { id: rest.0, kind: UpdateKind::Poll(data) }
    }
}

/// Selects updates carrying poll answers.
#[derive(Debug, Clone, Copy, PartialEq, Eq)]
pub struct PollAnswer;

impl Parser<types::Update, types::PollAnswer, UpdateRest> for PollAnswer {
    open spec fn spec_accepts(&self, src: types::Update) -> bool {
        src.kind is PollAnswer
    }

    open spec fn spec_out(&self, src: types::Update) -> ParserOut<types::PollAnswer, UpdateRest> {
        match src.kind {
            UpdateKind::PollAnswer(data) => ParserOut { data, rest: UpdateRest(src.id) },
            _ => arbitrary(),
        }
    }

    fn parse(&self, src: types::Update) -> (r: Result<
        ParserOut<types::PollAnswer, UpdateRest>,
        types::Update,
    >) {
        let types::Update { id, kind } = src;
        match kind {
            UpdateKind::PollAnswer(data) => Ok(ParserOut::new(data, UpdateRest(id))),
            other => Err(types::Update { id, kind: other }),
        }
    }

    proof fn lemma_round_trip(&self, src: types::Update) {
    }
}

impl RecombineFrom<PollAnswer> for types::Update {
    type Out = types::PollAnswer;

    type Rest = UpdateRest;

    open spec fn spec_recombine(info: ParserOut<types::PollAnswer, UpdateRest>) -> types::Update {
        types::Update { id: info.rest.0, kind: UpdateKind::PollAnswer(info.data) }
    }

    fn recombine(info: ParserOut<types::PollAnswer, UpdateRest>) -> (r: types::Update) {
        let (data, rest) = info.into_inner();
        types::Update { id: rest.0, kind: UpdateKind::PollAnswer(data) }
    }
}

// Each marker is also a guard-then-total-parse narrowing: the acceptance
// test is the sub-kind test, and projection is total on accepted updates.

impl ParseUpdate<types::Update> for Update {
    type Upd = types::Update;

    open spec fn spec_check(update: &types::Update) -> bool {
        true
    }

    open spec fn spec_parse(update: types::Update) -> types::Update {
        update
    }

    fn check(update: &types::Update) -> (r: bool) {
        true
    }

    fn parse(update: types::Update) -> (r: types::Update) {
        update
    }
}

impl ParseUpdate<types::Update> for Message {
    type Upd = types::Message;

    open spec fn spec_check(update: &types::Update) -> bool {
        update.kind is Message
    }

    open spec fn spec_parse(update: types::Update) -> types::Message {
        match update.kind {
            UpdateKind::Message(data) => data,
            _ => arbitrary(),
        }
    }

    fn check(update: &types::Update) -> (r: bool) {
        match &update.kind {
            UpdateKind::Message(..) => true,
            _ => false,
        }
    }

    fn parse(update: types::Update) -> (r: types::Message) {
        match update.kind {
            UpdateKind::Message(data) => data,
            _ => unreached(),
        }
    }
}

impl ParseUpdate<types::Update> for EditedMessage {
    type Upd = types::Message;

    open spec fn spec_check(update: &types::Update) -> bool {
        update.kind is EditedMessage
    }

    open spec fn spec_parse(update: types::Update) -> types::Message {
        match update.kind {
            UpdateKind::EditedMessage(data) => data,
            _ => arbitrary(),
        }
    }

    fn check(update: &types::Update) -> (r: bool) {
        match &update.kind {
            UpdateKind::EditedMessage(..) => true,
            _ => false,
        }
    }

    fn parse(update: types::Update) -> (r: types::Message) {
        match update.kind {
            UpdateKind::EditedMessage(data) => data,
            _ => unreached(),
        }
    }
}

impl ParseUpdate<types::Update> for ChannelPost {
    type Upd = types::Message;

    open spec fn spec_check(update: &types::Update) -> bool {
        update.kind is ChannelPost
    }

    open spec fn spec_parse(update: types::Update) -> types::Message {
        match update.kind {
            UpdateKind::ChannelPost(data) => data,
            _ => arbitrary(),
        }
    }

    fn check(update: &types::Update) -> (r: bool) {
        match &update.kind {
            UpdateKind::ChannelPost(..) => true,
            _ => false,
        }
    }

    fn parse(update: types::Update) -> (r: types::Message) {
        match update.kind {
            UpdateKind::ChannelPost(data) => data,
            _ => unreached(),
        }
    }
}

impl ParseUpdate<types::Update> for EditedChannelPost {
    type Upd = types::Message;

    open spec fn spec_check(update: &types::Update) -> bool {
        update.kind is EditedChannelPost
    }

    open spec fn spec_parse(update: types::Update) -> types::Message {
        match update.kind {
            UpdateKind::EditedChannelPost(data) => data,
            _ => arbitrary(),
        }
    }

    fn check(update: &types::Update) -> (r: bool) {
        match &update.kind {
            UpdateKind::EditedChannelPost(..) => true,
            _ => false,
        }
    }

    fn parse(update: types::Update) -> (r: types::Message) {
        match update.kind {
            UpdateKind::EditedChannelPost(data) => data,
            _ => unreached(),
        }
    }
}

impl ParseUpdate<types::Update> for InlineQuery {
    type Upd = types::InlineQuery;

    open spec fn spec_check(update: &types::Update) -> bool {
        update.kind is InlineQuery
    }

    open spec fn spec_parse(update: types::Update) -> types::InlineQuery {
        match update.kind {
            UpdateKind::InlineQuery(data) => data,
            _ => arbitrary(),
        }
    }

    fn check(update: &types::Update) -> (r: bool) {
        match &update.kind {
            UpdateKind::InlineQuery(..) => true,
            _ => false,
        }
    }

    fn parse(update: types::Update) -> (r: types::InlineQuery) {
        match update.kind {
            UpdateKind::InlineQuery(data) => data,
            _ => unreached(),
        }
    }
}

impl ParseUpdate<types::Update> for ChosenInlineResult {
    type Upd = types::ChosenInlineResult;

    open spec fn spec_check(update: &types::Update) -> bool {
        update.kind is ChosenInlineResult
    }

    open spec fn spec_parse(update: types::Update) -> types::ChosenInlineResult {
        match update.kind {
            UpdateKind::ChosenInlineResult(data) => data,
            _ => arbitrary(),
        }
    }

    fn check(update: &types::Update) -> (r: bool) {
        match &update.kind {
            UpdateKind::ChosenInlineResult(..) => true,
            _ => false,
        }
    }

    fn parse(update: types::Update) -> (r: types::ChosenInlineResult) {
        match update.kind {
            UpdateKind::ChosenInlineResult(data) => data,
            _ => unreached(),
        }
    }
}

impl ParseUpdate<types::Update> for CallbackQuery {
    type Upd = types::CallbackQuery;

    open spec fn spec_check(update: &types::Update) -> bool {
        update.kind is CallbackQuery
    }

    open spec fn spec_parse(update: types::Update) -> types::CallbackQuery {
        match update.kind {
            UpdateKind::CallbackQuery(data) => data,
            _ => arbitrary(),
        }
    }

    fn check(update: &types::Update) -> (r: bool) {
        match &update.kind {
            UpdateKind::CallbackQuery(..) => true,
            _ => false,
        }
    }

    fn parse(update: types::Update) -> (r: types::CallbackQuery) {
        match update.kind {
            UpdateKind::CallbackQuery(data) => data,
            _ => unreached(),
        }
    }
}

impl ParseUpdate<types::Update> for ShippingQuery {
    type Upd = types::ShippingQuery;

    open spec fn spec_check(update: &types::Update) -> bool {
        update.kind is ShippingQuery
    }

    open spec fn spec_parse(update: types::Update) -> types::ShippingQuery {
        match update.kind {
            UpdateKind::ShippingQuery(data) => data,
            _ => arbitrary(),
        }
    }

    fn check(update: &types::Update) -> (r: bool) {
        match &update.kind {
            UpdateKind::ShippingQuery(..) => true,
            _ => false,
        }
    }

    fn parse(update: types::Update) -> (r: types::ShippingQuery) {
        match update.kind {
            UpdateKind::ShippingQuery(data) => data,
            _ => unreached(),
        }
    }
}

impl ParseUpdate<types::Update> for PreCheckoutQuery {
    type Upd = types::PreCheckoutQuery;

    open spec fn spec_check(update: &types::Update) -> bool {
        update.kind is PreCheckoutQuery
    }

    open spec fn spec_parse(update: types::Update) -> types::PreCheckoutQuery {
        match update.kind {
            UpdateKind::PreCheckoutQuery(data) => data,
            _ => arbitrary(),
        }
    }

    fn check(update: &types::Update) -> (r: bool) {
        match &update.kind {
            UpdateKind::PreCheckoutQuery(..) => true,
            _ => false,
        }
    }

    fn parse(update: types::Update) -> (r: types::PreCheckoutQuery) {
        match update.kind {
            UpdateKind::PreCheckoutQuery(data) => data,
            _ => unreached(),
        }
    }
}

impl ParseUpdate<types::Update> for Poll {
    type Upd = types::Poll;

    open spec fn spec_check(update: &types::Update) -> bool {
        update.kind is Poll
    }

    open spec fn spec_parse(update: types::Update) -> types::Poll {
        match update.kind {
            UpdateKind::Poll(data) => data,
            _ => arbitrary(),
        }
    }

    fn check(update: &types::Update) -> (r: bool) {
        match &update.kind {
            UpdateKind::Poll(..) => true,
            _ => false,
        }
    }

    fn parse(update: types::Update) -> (r: types::Poll) {
        match update.kind {
            UpdateKind::Poll(data) => data,
            _ => unreached(),
        }
    }
}

impl ParseUpdate<types::Update> for PollAnswer {
    type Upd = types::PollAnswer;

    open spec fn spec_check(update: &types::Update) -> bool {
        update.kind is PollAnswer
    }

    open spec fn spec_parse(update: types::Update) -> types::PollAnswer {
        match update.kind {
            UpdateKind::PollAnswer(data) => data,
            _ => arbitrary(),
        }
    }

    fn check(update: &types::Update) -> (r: bool) {
        match &update.kind {
            UpdateKind::PollAnswer(..) => true,
            _ => false,
        }
    }

    fn parse(update: types::Update) -> (r: types::PollAnswer) {
        match update.kind {
            UpdateKind::PollAnswer(data) => data,
            _ => unreached(),
        }
    }
}

} // verus!
