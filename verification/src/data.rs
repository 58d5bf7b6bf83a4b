//! The per-dispatch context handed to the winning handler's callback: the
//! update kind and the plain values extracted from the event.
use vstd::prelude::*;

use crate::event::{spec_kind, utf8_chars, Event};
use crate::filter::DispatchError;
use crate::handler::HandlerType;

verus! {

/// The context built fresh for one dispatched event.
#[derive(Debug, Clone, PartialEq)]
pub struct Data {
    pub update_type: HandlerType,
    pub user_id: Option<i64>,
    pub chat_id: Option<i64>,
    pub query: Option<String>,
}

impl Default for Data {
    fn default() -> (r: Self)
        ensures
            r.update_type == HandlerType::Raw,
            r.user_id is None,
            r.chat_id is None,
            r.query is None,
    {
        Data { update_type: HandlerType::Raw, user_id: None, chat_id: None, query: None }
    }
}

/// The chat id the context records.  An inline query has no chat of its own:
/// its chat id is routed to the sender's id.
pub open spec fn spec_context_chat_id(e: Event) -> Option<i64> {
    match e {
        Event::CallbackQuery { chat_id, .. } => Some(chat_id),
        Event::InlineQuery { sender_id, .. } => Some(sender_id),
        Event::NewMessage(m) => Some(m.chat_id),
        Event::MessageEdited(m) => Some(m.chat_id),
        _ => None,
    }
}

/// The user id the context records.
pub open spec fn spec_context_user_id(e: Event) -> Option<i64> {
    match e {
        Event::CallbackQuery { sender_id, .. } => Some(sender_id),
        Event::InlineQuery { sender_id, .. } => Some(sender_id),
        Event::NewMessage(m) => m.sender_id,
        Event::MessageEdited(m) => m.sender_id,
        _ => None,
    }
}

/// The query string the context records: a callback's payload decoded as
/// UTF-8, an inline query's text, a message's text; none for deletions and
/// raw events.
pub open spec fn spec_context_query(e: Event) -> Option<Seq<char>> {
    match e {
        Event::CallbackQuery { data, .. } => utf8_chars(data@),
        Event::InlineQuery { text, .. } => Some(text@),
        Event::NewMessage(m) => Some(m.text@),
        Event::MessageEdited(m) => Some(m.text@),
        _ => None,
    }
}

/// Whether a context records exactly what the event carries.
pub open spec fn spec_data_matches(e: Event, d: Data) -> bool {
    &&& d.update_type == spec_kind(e)
    &&& d.chat_id == spec_context_chat_id(e)
    &&& d.user_id == spec_context_user_id(e)
    &&& match spec_context_query(e) {
        Some(q) => d.query matches Some(s) && s@ == q,
        None => d.query is None,
    }
}

impl Data {
    /// Build the context for one event.  This fails only on a callback whose
    /// payload is not valid UTF-8 — the one fatal case context extraction
    /// has.
    pub fn from_event(event: &Event) -> (r: Result<Data, DispatchError>)
        ensures
            r is Ok <==> spec_context_query(*event) is Some || !(*event matches Event::CallbackQuery { .. }),
            r matches Err(er) ==> er == DispatchError::InvalidUtf8,
            r matches Ok(d) ==> spec_data_matches(*event, d),
            r matches Ok(d) ==> (*event is InlineQuery ==> d.chat_id == d.user_id),
    {
        match event {
            Event::CallbackQuery { chat_id, sender_id, data, .. } => {
                match crate::event::decode_utf8(data) {
                    None => Err(DispatchError::InvalidUtf8),
                    Some(q) => Ok(
                        Data {
                            update_type: HandlerType::CallbackQuery,
                            user_id: Some(*sender_id),
                            chat_id: Some(*chat_id),
                            query: Some(q),
                        },
                    ),
                }
            },
            Event::InlineQuery { sender_id, text } => Ok(
                Data {
                    update_type: HandlerType::InlineQuery,
                    user_id: Some(*sender_id),
                    chat_id: Some(*sender_id),
                    query: Some(text.clone()),
                },
            ),
            Event::NewMessage(m) => Ok(
                Data {
                    update_type: HandlerType::Message,
                    user_id: m.sender_id,
                    chat_id: Some(m.chat_id),
                    query: Some(m.text.clone()),
                },
            ),
            Event::MessageEdited(m) => Ok(
                Data {
                    update_type: HandlerType::Message,
                    user_id: m.sender_id,
                    chat_id: Some(m.chat_id),
                    query: Some(m.text.clone()),
                },
            ),
            Event::MessageDeleted => Ok(
                Data {
                    update_type: HandlerType::MessageDeleted,
                    user_id: None,
                    chat_id: None,
                    query: None,
                },
            ),
            Event::Raw => Ok(
                Data { update_type: HandlerType::Raw, user_id: None, chat_id: None, query: None },
            ),
        }
    }
}

} // verus!
