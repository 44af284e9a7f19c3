//! Marker lenses over the message type: one unit struct per message
//! sub-kind.  Each narrows a message to itself when the message has that
//! kind — a pure refinement, whose residual is empty — and declines any
//! other message unchanged.

use vstd::prelude::*;
use crate::parser::{Parser, ParserOut, RecombineFrom};
use crate::types::{Message, MessageKind};

verus! {

/// Selects ordinary messages.
#[derive(Debug, Clone, Copy, PartialEq, Eq)]
pub struct Common;

impl Parser<Message, Message, ()> for Common {
    open spec fn spec_accepts(&self, src: Message) -> bool {
        src.kind is Common
    }

    open spec fn spec_out(&self, src: Message) -> ParserOut<Message, ()> {
        ParserOut { data: src, rest: () }
    }

    fn parse(&self, src: Message) -> (r: Result<ParserOut<Message, ()>, Message>) {
        match &src.kind {
            MessageKind::Common(..) => Ok(ParserOut::new(src, ())),
            _ => Err(src),
        }
    }

    proof fn lemma_round_trip(&self, src: Message) {
    }
}

impl RecombineFrom<Common> for Message {
    type Out = Message;

    type Rest = ();

    open spec fn spec_recombine(info: ParserOut<Message, ()>) -> Message {
        info.data
    }

    fn recombine(info: ParserOut<Message, ()>) -> (r: Message) {
        info.data
    }
}

/// Selects new-chat-members notices.
#[derive(Debug, Clone, Copy, PartialEq, Eq)]
pub struct NewChatMembers;

impl Parser<Message, Message, ()> for NewChatMembers {
    open spec fn spec_accepts(&self, src: Message) -> bool {
        src.kind is NewChatMembers
    }

    open spec fn spec_out(&self, src: Message) -> ParserOut<Message, ()> {
        ParserOut { data: src, rest: () }
    }

    fn parse(&self, src: Message) -> (r: Result<ParserOut<Message, ()>, Message>) {
        match &src.kind {
            MessageKind::NewChatMembers(..) => Ok(ParserOut::new(src, ())),
            _ => Err(src),
        }
    }

    proof fn lemma_round_trip(&self, src: Message) {
    }
}

impl RecombineFrom<NewChatMembers> for Message {
    type Out = Message;

    type Rest = ();

    open spec fn spec_recombine(info: ParserOut<Message, ()>) -> Message {
        info.data
    }

    fn recombine(info: ParserOut<Message, ()>) -> (r: Message) {
        info.data
    }
}

/// Selects left-chat-member notices.
#[derive(Debug, Clone, Copy, PartialEq, Eq)]
pub struct LeftChatMember;

impl Parser<Message, Message, ()> for LeftChatMember {
    open spec fn spec_accepts(&self, src: Message) -> bool {
        src.kind is LeftChatMember
    }

    open spec fn spec_out(&self, src: Message) -> ParserOut<Message, ()> {
        ParserOut { data: src, rest: () }
    }

    fn parse(&self, src: Message) -> (r: Result<ParserOut<Message, ()>, Message>) {
        match &src.kind {
            MessageKind::LeftChatMember(..) => Ok(ParserOut::new(src, ())),
            _ => Err(src),
        }
    }

    proof fn lemma_round_trip(&self, src: Message) {
    }
}

impl RecombineFrom<LeftChatMember> for Message {
    type Out = Message;

    type Rest = ();

    open spec fn spec_recombine(info: ParserOut<Message, ()>) -> Message {
        info.data
    }

    fn recombine(info: ParserOut<Message, ()>) -> (r: Message) {
        info.data
    }
}

/// Selects chat-title changes.
#[derive(Debug, Clone, Copy, PartialEq, Eq)]
pub struct NewChatTitle;

impl Parser<Message, Message, ()> for NewChatTitle {
    open spec fn spec_accepts(&self, src: Message) -> bool {
        src.kind is NewChatTitle
    }

    open spec fn spec_out(&self, src: Message) -> ParserOut<Message, ()> {
        ParserOut { data: src, rest: () }
    }

    fn parse(&self, src: Message) -> (r: Result<ParserOut<Message, ()>, Message>) {
        match &src.kind {
            MessageKind::NewChatTitle(..) => Ok(ParserOut::new(src, ())),
            _ => Err(src),
        }
    }

    proof fn lemma_round_trip(&self, src: Message) {
    }
}

impl RecombineFrom<NewChatTitle> for Message {
    type Out = Message;

    type Rest = ();

    open spec fn spec_recombine(info: ParserOut<Message, ()>) -> Message {
        info.data
    }

    fn recombine(info: ParserOut<Message, ()>) -> (r: Message) {
        info.data
    }
}

/// Selects chat-photo changes.
#[derive(Debug, Clone, Copy, PartialEq, Eq)]
pub struct NewChatPhoto;

impl Parser<Message, Message, ()> for NewChatPhoto {
    open spec fn spec_accepts(&self, src: Message) -> bool {
        src.kind is NewChatPhoto
    }

    open spec fn spec_out(&self, src: Message) -> ParserOut<Message, ()> {
        ParserOut { data: src, rest: () }
    }

    fn parse(&self, src: Message) -> (r: Result<ParserOut<Message, ()>, Message>) {
        match &src.kind {
            MessageKind::NewChatPhoto => Ok(ParserOut::new(src, ())),
            _ => Err(src),
        }
    }

    proof fn lemma_round_trip(&self, src: Message) {
    }
}

impl RecombineFrom<NewChatPhoto> for Message {
    type Out = Message;

    type Rest = ();

    open spec fn spec_recombine(info: ParserOut<Message, ()>) -> Message {
        info.data
    }

    fn recombine(info: ParserOut<Message, ()>) -> (r: Message) {
        info.data
    }
}

/// Selects chat-photo deletions.
#[derive(Debug, Clone, Copy, PartialEq, Eq)]
pub struct DeleteChatPhoto;

impl Parser<Message, Message, ()> for DeleteChatPhoto {
    open spec fn spec_accepts(&self, src: Message) -> bool {
        src.kind is DeleteChatPhoto
    }

    open spec fn spec_out(&self, src: Message) -> ParserOut<Message, ()> {
        ParserOut { data: src, rest: () }
    }

    fn parse(&self, src: Message) -> (r: Result<ParserOut<Message, ()>, Message>) {
        match &src.kind {
            MessageKind::DeleteChatPhoto => Ok(ParserOut::new(src, ())),
            _ => Err(src),
        }
    }

    proof fn lemma_round_trip(&self, src: Message) {
    }
}

impl RecombineFrom<DeleteChatPhoto> for Message {
    type Out = Message;

    type Rest = ();

    open spec fn spec_recombine(info: ParserOut<Message, ()>) -> Message {
        info.data
    }

    fn recombine(info: ParserOut<Message, ()>) -> (r: Message) {
        info.data
    }
}

/// Selects group-creation notices.
#[derive(Debug, Clone, Copy, PartialEq, Eq)]
pub struct GroupChatCreated;

impl Parser<Message, Message, ()> for GroupChatCreated {
    open spec fn spec_accepts(&self, src: Message) -> bool {
        src.kind is GroupChatCreated
    }

    open spec fn spec_out(&self, src: Message) -> ParserOut<Message, ()> {
        ParserOut { data: src, rest: () }
    }

    fn parse(&self, src: Message) -> (r: Result<ParserOut<Message, ()>, Message>) {
        match &src.kind {
            MessageKind::GroupChatCreated => Ok(ParserOut::new(src, ())),
            _ => Err(src),
        }
    }

    proof fn lemma_round_trip(&self, src: Message) {
    }
}

impl RecombineFrom<GroupChatCreated> for Message {
    type Out = Message;

    type Rest = ();

    open spec fn spec_recombine(info: ParserOut<Message, ()>) -> Message {
        info.data
    }

    fn recombine(info: ParserOut<Message, ()>) -> (r: Message) {
        info.data
    }
}

/// Selects supergroup-creation notices.
#[derive(Debug, Clone, Copy, PartialEq, Eq)]
pub struct SupergroupChatCreated;

impl Parser<Message, Message, ()> for SupergroupChatCreated {
    open spec fn spec_accepts(&self, src: Message) -> bool {
        src.kind is SupergroupChatCreated
    }

    open spec fn spec_out(&self, src: Message) -> ParserOut<Message, ()> {
        ParserOut { data: src, rest: () }
    }

    fn parse(&self, src: Message) -> (r: Result<ParserOut<Message, ()>, Message>) {
        match &src.kind {
            MessageKind::SupergroupChatCreated => Ok(ParserOut::new(src, ())),
            _ => Err(src),
        }
    }

    proof fn lemma_round_trip(&self, src: Message) {
    }
}

impl RecombineFrom<SupergroupChatCreated> for Message {
    type Out = Message;

    type Rest = ();

    open spec fn spec_recombine(info: ParserOut<Message, ()>) -> Message {
        info.data
    }

    fn recombine(info: ParserOut<Message, ()>) -> (r: Message) {
        info.data
    }
}

/// Selects channel-creation notices.
#[derive(Debug, Clone, Copy, PartialEq, Eq)]
pub struct ChannelChatCreated;

impl Parser<Message, Message, ()> for ChannelChatCreated {
    open spec fn spec_accepts(&self, src: Message) -> bool {
        src.kind is ChannelChatCreated
    }

    open spec fn spec_out(&self, src: Message) -> ParserOut<Message, ()> {
        ParserOut { data: src, rest: () }
    }

    fn parse(&self, src: Message) -> (r: Result<ParserOut<Message, ()>, Message>) {
        match &src.kind {
            MessageKind::ChannelChatCreated => Ok(ParserOut::new(src, ())),
            _ => Err(src),
        }
    }

    proof fn lemma_round_trip(&self, src: Message) {
    }
}

impl RecombineFrom<ChannelChatCreated> for Message {
    type Out = Message;

    type Rest = ();

    open spec fn spec_recombine(info: ParserOut<Message, ()>) -> Message {
        info.data
    }

    fn recombine(info: ParserOut<Message, ()>) -> (r: Message) {
        info.data
    }
}

/// Selects chat migrations.
#[derive(Debug, Clone, Copy, PartialEq, Eq)]
pub struct Migrate;

impl Parser<Message, Message, ()> for Migrate {
    open spec fn spec_accepts(&self, src: Message) -> bool {
        src.kind is Migrate
    }

    open spec fn spec_out(&self, src: Message) -> ParserOut<Message, ()> {
        ParserOut { data: src, rest: () }
    }

    fn parse(&self, src: Message) -> (r: Result<ParserOut<Message, ()>, Message>) {
        match &src.kind {
            MessageKind::Migrate { .. } => Ok(ParserOut::new(src, ())),
            _ => Err(src),
        }
    }

    proof fn lemma_round_trip(&self, src: Message) {
    }
}

impl RecombineFrom<Migrate> for Message {
    type Out = Message;

    type Rest = ();

    open spec fn spec_recombine(info: ParserOut<Message, ()>) -> Message {
        info.data
    }

    fn recombine(info: ParserOut<Message, ()>) -> (r: Message) {
        info.data
    }
}

/// Selects pinned-message notices.
#[derive(Debug, Clone, Copy, PartialEq, Eq)]
pub struct Pinned;

impl Parser<Message, Message, ()> for Pinned {
    open spec fn spec_accepts(&self, src: Message) -> bool {
        src.kind is Pinned
    }

    open spec fn spec_out(&self, src: Message) -> ParserOut<Message, ()> {
        ParserOut { data: src, rest: () }
    }

    fn parse(&self, src: Message) -> (r: Result<ParserOut<Message, ()>, Message>) {
        match &src.kind {
            MessageKind::Pinned { .. } => Ok(ParserOut::new(src, ())),
            _ => Err(src),
        }
    }

    proof fn lemma_round_trip(&self, src: Message) {
    }
}

impl RecombineFrom<Pinned> for Message {
    type Out = Message;

    type Rest = ();

    open spec fn spec_recombine(info: ParserOut<Message, ()>) -> Message {
        info.data
    }

    fn recombine(info: ParserOut<Message, ()>) -> (r: Message) {
        info.data
    }
}

/// Selects invoices.
#[derive(Debug, Clone, Copy, PartialEq, Eq)]
pub struct Invoice;

impl Parser<Message, Message, ()> for Invoice {
    open spec fn spec_accepts(&self, src: Message) -> bool {
        src.kind is Invoice
    }

    open spec fn spec_out(&self, src: Message) -> ParserOut<Message, ()> {
        ParserOut { data: src, rest: () }
    }

    fn parse(&self, src: Message) -> (r: Result<ParserOut<Message, ()>, Message>) {
        match &src.kind {
            MessageKind::Invoice { .. } => Ok(ParserOut::new(src, ())),
            _ => Err(src),
        }
    }

    proof fn lemma_round_trip(&self, src: Message) {
    }
}

impl RecombineFrom<Invoice> for Message {
    type Out = Message;

    type Rest = ();

    open spec fn spec_recombine(info: ParserOut<Message, ()>) -> Message {
        info.data
    }

    fn recombine(info: ParserOut<Message, ()>) -> (r: Message) {
        info.data
    }
}

/// Selects successful payments.
#[derive(Debug, Clone, Copy, PartialEq, Eq)]
pub struct SuccessfulPayment;

impl Parser<Message, Message, ()> for SuccessfulPayment {
    open spec fn spec_accepts(&self, src: Message) -> bool {
        src.kind is SuccessfulPayment
    }

    open spec fn spec_out(&self, src: Message) -> ParserOut<Message, ()> {
        ParserOut { data: src, rest: () }
    }

    fn parse(&self, src: Message) -> (r: Result<ParserOut<Message, ()>, Message>) {
        match &src.kind {
            MessageKind::SuccessfulPayment { .. } => Ok(ParserOut::new(src, ())),
            _ => Err(src),
        }
    }

    proof fn lemma_round_trip(&self, src: Message) {
    }
}

impl RecombineFrom<SuccessfulPayment> for Message {
    type Out = Message;

    type Rest = ();

    open spec fn spec_recombine(info: ParserOut<Message, ()>) -> Message {
        info.data
    }

    fn recombine(info: ParserOut<Message, ()>) -> (r: Message) {
        info.data
    }
}

/// Selects connected-website notices.
#[derive(Debug, Clone, Copy, PartialEq, Eq)]
pub struct ConnectedWebsite;

impl Parser<Message, Message, ()> for ConnectedWebsite {
    open spec fn spec_accepts(&self, src: Message) -> bool {
        src.kind is ConnectedWebsite
    }

    open spec fn spec_out(&self, src: Message) -> ParserOut<Message, ()> {
        ParserOut { data: src, rest: () }
    }

    fn parse(&self, src: Message) -> (r: Result<ParserOut<Message, ()>, Message>) {
        match &src.kind {
            MessageKind::ConnectedWebsite(..) => Ok(ParserOut::new(src, ())),
            _ => Err(src),
        }
    }

    proof fn lemma_round_trip(&self, src: Message) {
    }
}

impl RecombineFrom<ConnectedWebsite> for Message {
    type Out = Message;

    type Rest = ();

    open spec fn spec_recombine(info: ParserOut<Message, ()>) -> Message {
        info.data
    }

    fn recombine(info: ParserOut<Message, ()>) -> (r: Message) {
        info.data
    }
}

/// Selects passport-data notices.
#[derive(Debug, Clone, Copy, PartialEq, Eq)]
pub struct PassportData;

impl Parser<Message, Message, ()> for PassportData {
    open spec fn spec_accepts(&self, src: Message) -> bool {
        src.kind is PassportData
    }

    open spec fn spec_out(&self, src: Message) -> ParserOut<Message, ()> {
        ParserOut { data: src, rest: () }
    }

    fn parse(&self, src: Message) -> (r: Result<ParserOut<Message, ()>, Message>) {
        match &src.kind {
            MessageKind::PassportData => Ok(ParserOut::new(src, ())),
            _ => Err(src),
        }
    }

    proof fn lemma_round_trip(&self, src: Message) {
    }
}

impl RecombineFrom<PassportData> for Message {
    type Out = Message;

    type Rest = ();

    open spec fn spec_recombine(info: ParserOut<Message, ()>) -> Message {
        info.data
    }

    fn recombine(info: ParserOut<Message, ()>) -> (r: Message) {
        info.data
    }
}

/// Selects dice throws.
#[derive(Debug, Clone, Copy, PartialEq, Eq)]
pub struct Dice;

impl Parser<Message, Message, ()> for Dice {
    open spec fn spec_accepts(&self, src: Message) -> bool {
        src.kind is Dice
    }

    open spec fn spec_out(&self, src: Message) -> ParserOut<Message, ()> {
        ParserOut { data: src, rest: () }
    }

    fn parse(&self, src: Message) -> (r: Result<ParserOut<Message, ()>, Message>) {
        match &src.kind {
            MessageKind::Dice { .. } => Ok(ParserOut::new(src, ())),
            _ => Err(src),
        }
    }

    proof fn lemma_round_trip(&self, src: Message) {
    }
}

impl RecombineFrom<Dice> for Message {
    type Out = Message;

    type Rest = ();

    open spec fn spec_recombine(info: ParserOut<Message, ()>) -> Message {
        info.data
    }

    fn recombine(info: ParserOut<Message, ()>) -> (r: Message) {
        info.data
    }
}

} // verus!
