//! Entry points for routing the broad [`crate::types::Update`] event: one
//! ready-made lens per update sub-kind, each wrapped in an
//! [`UpdateParser`] builder.

use vstd::prelude::*;
use crate::update_parser::UpdateParser;

pub mod parser;

verus! {

/// The residual of narrowing an update into one of its sub-kinds: the
/// update id.
#[derive(Debug, Clone, Copy, PartialEq, Eq)]
pub struct UpdateRest(pub i32);

/// A builder over the identity lens: every update is accepted whole.
pub fn any<E>() -> (r: UpdateParser<parser::Update, E>)
    ensures
        r.parser() == parser::Update,
{
    UpdateParser::new(parser::Update)
}

/// A builder over the lens for ordinary messages.
pub fn message<E>() -> (r: UpdateParser<parser::Message, E>)
    ensures
        r.parser() == parser::Message,
{
    UpdateParser::new(parser::Message)
}

/// A builder over the lens for edited messages.
pub fn edited_message<E>() -> (r: UpdateParser<parser::EditedMessage, E>)
    ensures
        r.parser() == parser::EditedMessage,
{
    UpdateParser::new(parser::EditedMessage)
}

/// A builder over the lens for channel posts.
pub fn channel_post<E>() -> (r: UpdateParser<parser::ChannelPost, E>)
    ensures
        r.parser() == parser::ChannelPost,
{
    UpdateParser::new(parser::ChannelPost)
}

/// A builder over the lens for edited channel posts.
pub fn edited_channel_post<E>() -> (r: UpdateParser<parser::EditedChannelPost, E>)
    ensures
        r.parser() == parser::EditedChannelPost,
{
    UpdateParser::new(parser::EditedChannelPost)
}

/// A builder over the lens for inline queries.
pub fn inline_query<E>() -> (r: UpdateParser<parser::InlineQuery, E>)
    ensures
        r.parser() == parser::InlineQuery,
{
    UpdateParser::new(parser::InlineQuery)
}

/// A builder over the lens for chosen inline results.
pub fn chosen_inline_result<E>() -> (r: UpdateParser<parser::ChosenInlineResult, E>)
    ensures
        r.parser() == parser::ChosenInlineResult,
{
    UpdateParser::new(parser::ChosenInlineResult)
}

/// A builder over the lens for callback queries.
pub fn callback_query<E>() -> (r: UpdateParser<parser::CallbackQuery, E>)
    ensures
        r.parser() == parser::CallbackQuery,
{
    UpdateParser::new(parser::CallbackQuery)
}

/// A builder over the lens for shipping queries.
pub fn shipping_query<E>() -> (r: UpdateParser<parser::ShippingQuery, E>)
    ensures
        r.parser() == parser::ShippingQuery,
{
    UpdateParser::new(parser::ShippingQuery)
}

/// A builder over the lens for pre-checkout queries.
pub fn pre_checkout_query<E>() -> (r: UpdateParser<parser::PreCheckoutQuery, E>)
    ensures
        r.parser() == parser::PreCheckoutQuery,
{
    UpdateParser::new(parser::PreCheckoutQuery)
}

/// A builder over the lens for polls.
pub fn poll<E>() -> (r: UpdateParser<parser::Poll, E>)
    ensures
        r.parser() == parser::Poll,
{
    UpdateParser::new(parser::Poll)
}

/// A builder over the lens for poll answers.
pub fn poll_answer<E>() -> (r: UpdateParser<parser::PollAnswer, E>)
    ensures
        r.parser() == parser::PollAnswer,
{
    UpdateParser::new(parser::PollAnswer)
}

} // verus!
