//! A concrete event schema: a broad update type with one sub-kind per
//! variant, and a message type with its own sub-kinds.
//!
//! The routing core itself is generic; this schema is the shape the
//! ready-made lenses in [`crate::updates`] and [`crate::messages`] narrow.
//! Every value is plain data, so contracts can speak of it structurally.

use vstd::prelude::*;

verus! {

/// A chat, identified by its id.
#[derive(Debug, Clone, PartialEq, Eq)]
pub struct Chat {
    pub id: i64,
}

/// A user, identified by its id.
#[derive(Debug, Clone, PartialEq, Eq)]
pub struct User {
    pub id: i64,
    pub is_bot: bool,
}

/// Where a forwarded message originally came from.
#[derive(Debug, Clone, PartialEq, Eq)]
pub enum ForwardedFrom {
    /// Forwarded from a known user.
    User(User),
    /// Forwarded from a user who hides their account, by display name.
    SenderName(String),
}

/// Forwarding metadata of a message.
#[derive(Debug, Clone, PartialEq, Eq)]
pub enum ForwardKind {
    /// Forwarded from a non-channel chat.
    NonChannel { date: i32, from: ForwardedFrom },
    /// Forwarded from a channel.
    Channel { date: i32, chat: Chat, signature: Option<String>, message_id: Option<i32> },
    /// Not a forwarded message.
    Origin,
}

/// The payload of an ordinary message.
#[derive(Debug, Clone, PartialEq, Eq)]
pub enum MediaKind {
    /// A plain text message.
    Text { text: String },
    /// Any other media payload.
    Other,
}

/// The common message shape: sender, forwarding metadata, media.
#[derive(Debug, Clone, PartialEq, Eq)]
pub struct MessageCommon {
    pub from: Option<User>,
    pub forward_kind: ForwardKind,
    pub media_kind: MediaKind,
}

/// The sub-kinds a message can take.
#[derive(Debug, Clone, PartialEq, Eq)]
pub enum MessageKind {
    /// An ordinary message.
    Common(MessageCommon),
    /// Users joined the chat.
    NewChatMembers(Vec<User>),
    /// A user left the chat.
    LeftChatMember(User),
    /// The chat title changed.
    NewChatTitle(String),
    /// The chat photo changed.
    NewChatPhoto,
    /// The chat photo was deleted.
    DeleteChatPhoto,
    /// A group chat was created.
    GroupChatCreated,
    /// A supergroup chat was created.
    SupergroupChatCreated,
    /// A channel chat was created.
    ChannelChatCreated,
    /// The group migrated to or from a supergroup.
    Migrate { to_chat_id: i64, from_chat_id: i64 },
    /// A message was pinned, named by its message id.
    Pinned { message_id: i32 },
    /// An invoice for a payment.
    Invoice { total_amount: i32 },
    /// A successful payment.
    SuccessfulPayment { total_amount: i32 },
    /// A user logged in through a connected website.
    ConnectedWebsite(String),
    /// Passport data was shared.
    PassportData,
    /// A dice was thrown.
    Dice { value: i32 },
}

/// A message event.
#[derive(Debug, Clone, PartialEq, Eq)]
pub struct Message {
    pub id: i32,
    pub date: i32,
    pub chat: Chat,
    pub via_bot: Option<User>,
    pub kind: MessageKind,
}

impl Message {
    /// The sender, for an ordinary message that has one.
    pub open spec fn spec_from(self) -> Option<User> {
        match self.kind {
            MessageKind::Common(c) => c.from,
            _ => Option::None,
        }
    }

    /// The original sender of a forwarded non-channel message.
    pub open spec fn spec_forward_from(self) -> Option<ForwardedFrom> {
        match self.kind {
            MessageKind::Common(c) => match c.forward_kind {
                ForwardKind::NonChannel { from, .. } => Option::Some(from),
                _ => Option::None,
            },
            _ => Option::None,
        }
    }

    /// The source channel of a forwarded channel message.
    pub open spec fn spec_forward_from_chat(self) -> Option<Chat> {
        match self.kind {
            MessageKind::Common(c) => match c.forward_kind {
                ForwardKind::Channel { chat, .. } => Option::Some(chat),
                _ => Option::None,
            },
            _ => Option::None,
        }
    }

    /// The original message id of a forwarded channel message.
    pub open spec fn spec_forward_from_message_id(self) -> Option<i32> {
        match self.kind {
            MessageKind::Common(c) => match c.forward_kind {
                ForwardKind::Channel { message_id, .. } => message_id,
                _ => Option::None,
            },
            _ => Option::None,
        }
    }

    /// The signature on a forwarded channel message.
    pub open spec fn spec_forward_signature(self) -> Option<String> {
        match self.kind {
            MessageKind::Common(c) => match c.forward_kind {
                ForwardKind::Channel { signature, .. } => signature,
                _ => Option::None,
            },
            _ => Option::None,
        }
    }

    /// When the original message was sent, for a forwarded message.
    pub open spec fn spec_forward_date(self) -> Option<i32> {
        match self.kind {
            MessageKind::Common(c) => match c.forward_kind {
                ForwardKind::NonChannel { date, .. } => Option::Some(date),
                ForwardKind::Channel { date, .. } => Option::Some(date),
                ForwardKind::Origin => Option::None,
            },
            _ => Option::None,
        }
    }

    /// The text of an ordinary text message.
    pub open spec fn spec_text(self) -> Option<String> {
        match self.kind {
            MessageKind::Common(c) => match c.media_kind {
                MediaKind::Text { text } => Option::Some(text),
                MediaKind::Other => Option::None,
            },
            _ => Option::None,
        }
    }

    /// The sender, for an ordinary message that has one.
    pub fn from(&self) -> (r: Option<&User>)
        ensures
            match r {
                Option::Some(u) => self.spec_from() == Option::Some(*u),
                Option::None => self.spec_from() is None,
            },
    {
        match &self.kind {
            MessageKind::Common(c) => match &c.from {
                Option::Some(u) => Option::Some(u),
                Option::None => Option::None,
            },
            _ => Option::None,
        }
    }

    /// The original sender of a forwarded non-channel message.
    pub fn forward_from(&self) -> (r: Option<&ForwardedFrom>)
        ensures
            match r {
                Option::Some(f) => self.spec_forward_from() == Option::Some(*f),
                Option::None => self.spec_forward_from() is None,
            },
    {
        match &self.kind {
            MessageKind::Common(c) => match &c.forward_kind {
                ForwardKind::NonChannel { from, .. } => Option::Some(from),
                _ => Option::None,
            },
            _ => Option::None,
        }
    }

    /// The source channel of a forwarded channel message.
    pub fn forward_from_chat(&self) -> (r: Option<&Chat>)
        ensures
            match r {
                Option::Some(c) => self.spec_forward_from_chat() == Option::Some(*c),
                Option::None => self.spec_forward_from_chat() is None,
            },
    {
        match &self.kind {
            MessageKind::Common(c) => match &c.forward_kind {
                ForwardKind::Channel { chat, .. } => Option::Some(chat),
                _ => Option::None,
            },
            _ => Option::None,
        }
    }

    /// The original message id of a forwarded channel message.
    pub fn forward_from_message_id(&self) -> (r: Option<i32>)
        ensures
            r == self.spec_forward_from_message_id(),
    {
        match &self.kind {
            MessageKind::Common(c) => match &c.forward_kind {
                ForwardKind::Channel { message_id, .. } => *message_id,
                _ => Option::None,
            },
            _ => Option::None,
        }
    }

    /// The signature on a forwarded channel message.
    pub fn forward_signature(&self) -> (r: Option<&String>)
        ensures
            match r {
                Option::Some(s) => self.spec_forward_signature() == Option::Some(*s),
                Option::None => self.spec_forward_signature() is None,
            },
    {
        match &self.kind {
            MessageKind::Common(c) => match &c.forward_kind {
                ForwardKind::Channel { signature, .. } => match signature {
                    Option::Some(s) => Option::Some(s),
                    Option::None => Option::None,
                },
                _ => Option::None,
            },
            _ => Option::None,
        }
    }

    /// When the original message was sent, for a forwarded message.
    pub fn forward_date(&self) -> (r: Option<i32>)
        ensures
            r == self.spec_forward_date(),
    {
        match &self.kind {
            MessageKind::Common(c) => match &c.forward_kind {
                ForwardKind::NonChannel { date, .. } => Option::Some(*date),
                ForwardKind::Channel { date, .. } => Option::Some(*date),
                ForwardKind::Origin => Option::None,
            },
            _ => Option::None,
        }
    }

    /// The text of an ordinary text message.
    pub fn text(&self) -> (r: Option<&String>)
        ensures
            match r {
                Option::Some(t) => self.spec_text() == Option::Some(*t),
                Option::None => self.spec_text() is None,
            },
    {
        match &self.kind {
            MessageKind::Common(c) => match &c.media_kind {
                MediaKind::Text { text } => Option::Some(text),
                MediaKind::Other => Option::None,
            },
            _ => Option::None,
        }
    }
}

/// An inline query event.
#[derive(Debug, Clone, PartialEq, Eq)]
pub struct InlineQuery {
    pub id: String,
    pub query: String,
}

/// A chosen-inline-result event.
#[derive(Debug, Clone, PartialEq, Eq)]
pub struct ChosenInlineResult {
    pub result_id: String,
}

/// A callback-query event.
#[derive(Debug, Clone, PartialEq, Eq)]
pub struct CallbackQuery {
    pub id: String,
    pub data: Option<String>,
}

/// A shipping-query event.
#[derive(Debug, Clone, PartialEq, Eq)]
pub struct ShippingQuery {
    pub id: String,
}

/// A pre-checkout-query event.
#[derive(Debug, Clone, PartialEq, Eq)]
pub struct PreCheckoutQuery {
    pub id: String,
}

/// A poll event.
#[derive(Debug, Clone, PartialEq, Eq)]
pub struct Poll {
    pub id: String,
    pub question: String,
}

/// A poll-answer event.
#[derive(Debug, Clone, PartialEq, Eq)]
pub struct PollAnswer {
    pub poll_id: String,
}

/// The sub-kinds a broad update can take.
#[derive(Debug, Clone, PartialEq, Eq)]
pub enum UpdateKind {
    Message(Message),
    EditedMessage(Message),
    ChannelPost(Message),
    EditedChannelPost(Message),
    InlineQuery(InlineQuery),
    ChosenInlineResult(ChosenInlineResult),
    CallbackQuery(CallbackQuery),
    ShippingQuery(ShippingQuery),
    PreCheckoutQuery(PreCheckoutQuery),
    Poll(Poll),
    PollAnswer(PollAnswer),
}

/// The broad event: an update id plus one sub-kind.
#[derive(Debug, Clone, PartialEq, Eq)]
pub struct Update {
    pub id: i32,
    pub kind: UpdateKind,
}

} // verus!
