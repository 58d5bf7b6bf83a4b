//! The predicate language over events, and its evaluation semantics.
//!
//! Every filter but two is a pure reading of the event.  `Administrator`
//! depends on a session permission lookup, handed in as the `admin` argument;
//! `Regex` depends on the regex engine, reached through a trusted wrapper.
//! "Does not match" is a boolean, never an error: the error channel carries
//! only the fatal cases — an invalid pattern, an undecodable callback
//! payload, a permission lookup the session did not answer.
use vstd::prelude::*;

use crate::event::{spec_chat_id, spec_kind, spec_query, utf8_chars, Event, MediaKind};
use crate::handler::HandlerType;

verus! {

/// A fatal evaluation error.  A filter that merely does not match returns
/// false, never one of these.
#[derive(Debug, Clone, Copy, PartialEq, Eq, Structural)]
pub enum DispatchError {
    /// A `Regex` filter's pattern does not compile.
    InvalidRegex,
    /// An `Administrator` filter needed the sender's permissions and the
    /// session did not answer the lookup.
    PermissionLookupFailed,
    /// A callback payload had to serve as a query string but is not valid
    /// UTF-8.
    InvalidUtf8,
}

/// A named predicate evaluated against one event.  Filters are immutable
/// values; evaluation never mutates them.
#[derive(Debug, Clone, PartialEq)]
pub enum Filter {
    /// True iff the sender is an administrator of the event's group chat;
    /// false when the event is no callback or message, or its chat no group.
    Administrator,
    All,
    Chat(i64),
    Contact,
    Edited,
    Deleted,
    Document,
    Forward,
    Media,
    Mentioned,
    OutGoing,
    Photo,
    Raw,
    Reply,
    Regex(String),
    Text(String),
    Sticker,
}

/// Whether an `Administrator` filter applies to this event at all: only a
/// callback or a (new or edited) message whose chat is a group can ask for
/// the sender's permissions.
pub open spec fn spec_admin_applicable(e: Event) -> bool {
    match e {
        Event::CallbackQuery { chat_is_group, .. } => chat_is_group,
        Event::NewMessage(m) => m.chat_is_group,
        Event::MessageEdited(m) => m.chat_is_group,
        _ => false,
    }
}

/// Whether `regex::Regex::new` accepts a pattern.  Compilation succeeds or
/// fails on the pattern alone.
pub uninterp spec fn regex_valid(pattern: Seq<char>) -> bool;

/// Whether a compiled pattern matches anywhere in a text.  The answer
/// depends on the pattern and the text alone.
pub uninterp spec fn regex_matches(pattern: Seq<char>, text: Seq<char>) -> bool;

/// Relies on `regex::Regex::new` and `regex::Regex::is_match`: compilation
/// succeeds exactly on valid patterns, and matching is a function of the
/// pattern and the haystack.
#[verifier::external_body]
fn regex_check(pattern: &str, text: &str) -> (r: Option<bool>)
    ensures
        r is Some <==> regex_valid(pattern@),
        r matches Some(b) ==> b == regex_matches(pattern@, text@),
{
    regex::Regex::new(pattern).ok().map(|re| re.is_match(text))
}

/// The value of one filter on one event.
///
/// `admin` is the session's answer to the one permission lookup the event
/// could need (see [`Filter::check`]).
pub open spec fn spec_filter_eval(f: Filter, e: Event, admin: Option<bool>) -> Result<
    bool,
    DispatchError,
> {
    match f {
        Filter::Administrator => if spec_admin_applicable(e) {
            match admin {
                Some(b) => Ok(b),
                None => Err(DispatchError::PermissionLookupFailed),
            }
        } else {
            Ok(false)
        },
        Filter::All => Ok(true),
        Filter::Chat(id) => Ok(spec_chat_id(e) == Some(id)),
        Filter::Contact => Ok(
            match e {
                Event::NewMessage(m) => m.media == Some(MediaKind::Contact),
                Event::MessageEdited(m) => m.media == Some(MediaKind::Contact),
                _ => false,
            },
        ),
        Filter::Edited => Ok(e is MessageEdited),
        Filter::Deleted => Ok(e is MessageDeleted),
        Filter::Document => Ok(
            match e {
                Event::NewMessage(m) => m.media == Some(MediaKind::Document),
                Event::MessageEdited(m) => m.media == Some(MediaKind::Document),
                _ => false,
            },
        ),
        Filter::Forward => Ok(e matches Event::NewMessage(m) && m.forwarded),
        Filter::Media => Ok(
            match e {
                Event::NewMessage(m) => m.media is Some,
                Event::MessageEdited(m) => m.media is Some,
                _ => false,
            },
        ),
        Filter::Mentioned => Ok(e matches Event::NewMessage(m) && m.mentioned),
        Filter::OutGoing => Ok(e matches Event::NewMessage(m) && m.outgoing),
        Filter::Photo => Ok(
            match e {
                Event::NewMessage(m) => m.media == Some(MediaKind::Photo),
                Event::MessageEdited(m) => m.media == Some(MediaKind::Photo),
                _ => false,
            },
        ),
        Filter::Raw => Ok(e is Raw),
        Filter::Reply => Ok(e matches Event::NewMessage(m) && m.replied),
        Filter::Regex(pattern) => match spec_query(e) {
            None => Err(DispatchError::InvalidUtf8),
            Some(q) => if regex_valid(pattern@) {
                Ok(regex_matches(pattern@, q))
            } else {
                Err(DispatchError::InvalidRegex)
            },
        },
        Filter::Text(s) => Ok(
            match e {
                Event::NewMessage(m) => m.text@ == s@,
                Event::MessageEdited(m) => m.text@ == s@,
                _ => false,
            },
        ),
        Filter::Sticker => Ok(
            e matches Event::NewMessage(m) && m.media == Some(MediaKind::Sticker),
        ),
    }
}

/// `All` evaluates true on every event, whatever the session answered.
pub proof fn lemma_all_always_true(e: Event, admin: Option<bool>)
    ensures
        spec_filter_eval(Filter::All, e, admin) == Ok::<bool, DispatchError>(true),
{
}

/// `Text(s)` is true exactly on a new or edited message whose query string
/// equals `s` — character for character, no trimming; it is false on every
/// other event kind, and never an error.
pub proof fn lemma_text_exact(s: String, e: Event, admin: Option<bool>)
    ensures
        spec_filter_eval(Filter::Text(s), e, admin) == Ok::<bool, DispatchError>(
            spec_kind(e) == HandlerType::Message && spec_query(e) == Some(s@),
        ),
{
}

/// `Chat(id)` is true exactly when the event carries that chat id; an event
/// without a chat id of its own — an inline query, a deletion, a raw event —
/// never matches.
pub proof fn lemma_chat_matches_id(id: i64, e: Event, admin: Option<bool>)
    ensures
        spec_filter_eval(Filter::Chat(id), e, admin) == Ok::<bool, DispatchError>(
            spec_chat_id(e) == Some(id),
        ),
        spec_chat_id(e) is None ==> spec_filter_eval(Filter::Chat(id), e, admin) == Ok::<
            bool,
            DispatchError,
        >(false),
{
}

impl Filter {
    /// Evaluate this filter on one event.
    ///
    /// `admin` carries the session's answer to the one permission lookup the
    /// event could need — whether the event's sender is an administrator of
    /// the event's group chat — or `None` when the session has not answered;
    /// only an applicable `Administrator` filter reads it.
    pub fn check(&self, event: &Event, admin: Option<bool>) -> (r: Result<bool, DispatchError>)
        ensures
            r == spec_filter_eval(*self, *event, admin),
    {
        match self {
            Filter::Administrator => {
                let applicable = match event {
                    Event::CallbackQuery { chat_is_group, .. } => *chat_is_group,
                    Event::NewMessage(m) => m.chat_is_group,
                    Event::MessageEdited(m) => m.chat_is_group,
                    _ => false,
                };
                if applicable {
                    match admin {
                        Some(b) => Ok(b),
                        None => Err(DispatchError::PermissionLookupFailed),
                    }
                } else {
                    Ok(false)
                }
            },
            Filter::All => Ok(true),
            Filter::Chat(id) => Ok(
                match event {
                    Event::CallbackQuery { chat_id, .. } => *chat_id == *id,
                    Event::NewMessage(m) => m.chat_id == *id,
                    Event::MessageEdited(m) => m.chat_id == *id,
                    _ => false,
                },
            ),
            Filter::Contact => Ok(
                match event {
                    Event::NewMessage(m) => match m.media {
                        Some(MediaKind::Contact) => true,
                        _ => false,
                    },
                    Event::MessageEdited(m) => match m.media {
                        Some(MediaKind::Contact) => true,
                        _ => false,
                    },
                    _ => false,
                },
            ),
            Filter::Edited => Ok(
                match event {
                    Event::MessageEdited(_) => true,
                    _ => false,
                },
            ),
            Filter::Deleted => Ok(
                match event {
                    Event::MessageDeleted => true,
                    _ => false,
                },
            ),
            Filter::Document => Ok(
                match event {
                    Event::NewMessage(m) => match m.media {
                        Some(MediaKind::Document) => true,
                        _ => false,
                    },
                    Event::MessageEdited(m) => match m.media {
                        Some(MediaKind::Document) => true,
                        _ => false,
                    },
                    _ => false,
                },
            ),
            Filter::Forward => Ok(
                match event {
                    Event::NewMessage(m) => m.forwarded,
                    _ => false,
                },
            ),
            Filter::Media => Ok(
                match event {
                    Event::NewMessage(m) => m.media.is_some(),
                    Event::MessageEdited(m) => m.media.is_some(),
                    _ => false,
                },
            ),
            Filter::Mentioned => Ok(
                match event {
                    Event::NewMessage(m) => m.mentioned,
                    _ => false,
                },
            ),
            Filter::OutGoing => Ok(
                match event {
                    Event::NewMessage(m) => m.outgoing,
                    _ => false,
                },
            ),
            Filter::Photo => Ok(
                match event {
                    Event::NewMessage(m) => match m.media {
                        Some(MediaKind::Photo) => true,
                        _ => false,
                    },
                    Event::MessageEdited(m) => match m.media {
                        Some(MediaKind::Photo) => true,
                        _ => false,
                    },
                    _ => false,
                },
            ),
            Filter::Raw => Ok(
                match event {
                    Event::Raw => true,
                    _ => false,
                },
            ),
            Filter::Reply => Ok(
                match event {
                    Event::NewMessage(m) => m.replied,
                    _ => false,
                },
            ),
            Filter::Regex(pattern) => {
                let decoded: Option<String>;
                let query: &str = match event {
                    Event::CallbackQuery { data, .. } => {
                        decoded = crate::event::decode_utf8(data);
                        match &decoded {
                            Some(s) => s.as_str(),
                            None => {
                                return Err(DispatchError::InvalidUtf8);
                            },
                        }
                    },
                    Event::InlineQuery { text, .. } => text.as_str(),
                    Event::NewMessage(m) => m.text.as_str(),
                    Event::MessageEdited(m) => m.text.as_str(),
                    _ => {
                        proof {
                            reveal_strlit("");
                            assert(""@ =~= Seq::<char>::empty());
                        }
                        ""
                    },
                };
                match regex_check(pattern.as_str(), query) {
                    Some(b) => Ok(b),
                    None => Err(DispatchError::InvalidRegex),
                }
            },
            Filter::Text(s) => Ok(
                match event {
                    Event::NewMessage(m) => m.text == *s,
                    Event::MessageEdited(m) => m.text == *s,
                    _ => false,
                },
            ),
            Filter::Sticker => Ok(
                match event {
                    Event::NewMessage(m) => match m.media {
                        Some(MediaKind::Sticker) => true,
                        _ => false,
                    },
                    _ => false,
                },
            ),
        }
    }
}

} // verus!
