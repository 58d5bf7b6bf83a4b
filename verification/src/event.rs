//! The normalized shapes of incoming events.
//!
//! A raw session update is opaque to this library; the host converts each one
//! into an [`Event`] holding, as plain values, exactly what filter evaluation
//! and context extraction read: ids, the text or payload, the chat's group
//! flag, and the message's media and metadata flags.  Updates with no matching
//! variant are dropped by the host before this library sees them.
use vstd::prelude::*;

use crate::handler::HandlerType;

verus! {

/// The kind of media a message carries, as far as the filters distinguish it.
#[derive(Debug, Clone, Copy, PartialEq, Eq)]
pub enum MediaKind {
    Contact,
    Document,
    Photo,
    Sticker,
    /// Media of a kind no filter names.
    Other,
}

/// What a new or edited message exposes to filter evaluation and context
/// extraction.
#[derive(Debug, Clone, PartialEq)]
pub struct MessageData {
    pub chat_id: i64,
    /// The sender, when the session knows one.
    pub sender_id: Option<i64>,
    /// Whether the chat the message was sent in is a group.
    pub chat_is_group: bool,
    pub text: String,
    pub media: Option<MediaKind>,
    /// Whether the message carries forward metadata.
    pub forwarded: bool,
    /// Whether the message carries reply metadata.
    pub replied: bool,
    pub mentioned: bool,
    pub outgoing: bool,
}

/// One normalized inbound event.  Exactly one variant is active.
#[derive(Debug, Clone, PartialEq)]
pub enum Event {
    /// A button callback; its payload is raw bytes, decoded as UTF-8 only
    /// where a query string is needed.
    CallbackQuery { chat_id: i64, sender_id: i64, chat_is_group: bool, data: Vec<u8> },
    InlineQuery { sender_id: i64, text: String },
    NewMessage(MessageData),
    MessageEdited(MessageData),
    MessageDeleted,
    Raw,
}

/// The event kind used by a handler's type gate.  New and edited messages
/// share one kind.
pub open spec fn spec_kind(e: Event) -> HandlerType {
    match e {
        Event::CallbackQuery { .. } => HandlerType::CallbackQuery,
        Event::InlineQuery { .. } => HandlerType::InlineQuery,
        Event::NewMessage(_) => HandlerType::Message,
        Event::MessageEdited(_) => HandlerType::Message,
        Event::MessageDeleted => HandlerType::MessageDeleted,
        Event::Raw => HandlerType::Raw,
    }
}

/// The chat id an event carries, if any.  Inline queries, deletions and raw
/// events carry none.
pub open spec fn spec_chat_id(e: Event) -> Option<i64> {
    match e {
        Event::CallbackQuery { chat_id, .. } => Some(chat_id),
        Event::NewMessage(m) => Some(m.chat_id),
        Event::MessageEdited(m) => Some(m.chat_id),
        _ => None,
    }
}

/// What `str::from_utf8` decodes a byte sequence to: `Some` exactly on valid
/// UTF-8.  The result depends on the bytes alone.
pub uninterp spec fn utf8_chars(bytes: Seq<u8>) -> Option<Seq<char>>;

/// The query string an event exposes to text matching: a callback's payload
/// decoded as UTF-8 (`None` when the payload is not valid UTF-8), an inline
/// query's text, a message's text, and the empty string for every other kind.
pub open spec fn spec_query(e: Event) -> Option<Seq<char>> {
    match e {
        Event::CallbackQuery { data, .. } => utf8_chars(data@),
        Event::InlineQuery { text, .. } => Some(text@),
        Event::NewMessage(m) => Some(m.text@),
        Event::MessageEdited(m) => Some(m.text@),
        _ => Some(Seq::empty()),
    }
}

/// Relies on `core::str::from_utf8`: it returns `Ok` exactly on valid UTF-8,
/// and the decoded characters depend on the bytes alone.
#[verifier::external_body]
pub(crate) fn decode_utf8(bytes: &Vec<u8>) -> (r: Option<String>)
    ensures
        r is Some <==> utf8_chars(bytes@) is Some,
        r matches Some(s) ==> utf8_chars(bytes@) == Some(s@),
{
    core::str::from_utf8(bytes).ok().map(|s| s.to_string())
}

impl Event {
    /// Classify this event into the kind a handler's type gate speaks of.
    pub fn kind(&self) -> (r: HandlerType)
        ensures
            r == spec_kind(*self),
    {
        match self {
            Event::CallbackQuery { .. } => HandlerType::CallbackQuery,
            Event::InlineQuery { .. } => HandlerType::InlineQuery,
            Event::NewMessage(_) => HandlerType::Message,
            Event::MessageEdited(_) => HandlerType::Message,
            Event::MessageDeleted => HandlerType::MessageDeleted,
            Event::Raw => HandlerType::Raw,
        }
    }
}

} // verus!
