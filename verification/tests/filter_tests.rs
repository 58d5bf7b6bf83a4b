use dispatcher::{Event, Filter, MediaKind, MessageData};

fn message(text: &str) -> MessageData {
    MessageData {
        chat_id: 10,
        sender_id: Some(20),
        chat_is_group: false,
        text: text.to_string(),
        media: None,
        forwarded: false,
        replied: false,
        mentioned: false,
        outgoing: false,
    }
}

fn callback(data: &[u8]) -> Event {
    Event::CallbackQuery { chat_id: 10, sender_id: 20, chat_is_group: false, data: data.to_vec() }
}

#[test]
fn all_matches_every_kind() {
    let events = vec![
        Event::NewMessage(message("hi")),
        Event::MessageEdited(message("hi")),
        Event::InlineQuery { sender_id: 20, text: "hi".to_string() },
        callback(b"hi"),
        Event::MessageDeleted,
        Event::Raw,
    ];
    for e in events.iter() {
        assert_eq!(Filter::All.check(e, None), Ok(true));
    }
}

#[test]
fn text_exact_equality_only() {
    let f = Filter::Text("Hello".to_string());
    assert_eq!(f.check(&Event::NewMessage(message("Hello")), None), Ok(true));
    assert_eq!(f.check(&Event::MessageEdited(message("Hello")), None), Ok(true));
    // case-sensitive, no trimming
    assert_eq!(f.check(&Event::NewMessage(message("hello")), None), Ok(false));
    assert_eq!(f.check(&Event::NewMessage(message("Hello ")), None), Ok(false));
    assert_eq!(f.check(&Event::NewMessage(message("")), None), Ok(false));
}

#[test]
fn text_restricted_to_messages() {
    let f = Filter::Text("hi".to_string());
    assert_eq!(f.check(&Event::InlineQuery { sender_id: 20, text: "hi".to_string() }, None), Ok(false));
    assert_eq!(f.check(&callback(b"hi"), None), Ok(false));
    assert_eq!(f.check(&Event::MessageDeleted, None), Ok(false));
    assert_eq!(f.check(&Event::Raw, None), Ok(false));
}

#[test]
fn chat_compares_the_chat_id() {
    let mut m = message("hi");
    m.chat_id = 5;
    assert_eq!(Filter::Chat(5).check(&Event::NewMessage(m.clone()), None), Ok(true));
    assert_eq!(Filter::Chat(6).check(&Event::NewMessage(m.clone()), None), Ok(false));
    assert_eq!(Filter::Chat(5).check(&Event::MessageEdited(m), None), Ok(true));
    let cb = Event::CallbackQuery { chat_id: 5, sender_id: 20, chat_is_group: false, data: vec![] };
    assert_eq!(Filter::Chat(5).check(&cb, None), Ok(true));
}

#[test]
fn chat_false_without_a_chat_id() {
    // an inline query has no chat id of its own, even for the sender's id
    let inline = Event::InlineQuery { sender_id: 5, text: "hi".to_string() };
    assert_eq!(Filter::Chat(5).check(&inline, None), Ok(false));
    assert_eq!(Filter::Chat(0).check(&Event::MessageDeleted, None), Ok(false));
    assert_eq!(Filter::Chat(0).check(&Event::Raw, None), Ok(false));
}

#[test]
fn edited_deleted_raw_go_by_kind() {
    assert_eq!(Filter::Edited.check(&Event::MessageEdited(message("x")), None), Ok(true));
    assert_eq!(Filter::Edited.check(&Event::NewMessage(message("x")), None), Ok(false));
    assert_eq!(Filter::Deleted.check(&Event::MessageDeleted, None), Ok(true));
    assert_eq!(Filter::Deleted.check(&Event::NewMessage(message("x")), None), Ok(false));
    assert_eq!(Filter::Raw.check(&Event::Raw, None), Ok(true));
    assert_eq!(Filter::Raw.check(&Event::MessageDeleted, None), Ok(false));
}

#[test]
fn media_filters_match_their_kind() {
    let mut m = message("x");
    m.media = Some(MediaKind::Photo);
    assert_eq!(Filter::Photo.check(&Event::NewMessage(m.clone()), None), Ok(true));
    assert_eq!(Filter::Photo.check(&Event::MessageEdited(m.clone()), None), Ok(true));
    assert_eq!(Filter::Document.check(&Event::NewMessage(m.clone()), None), Ok(false));
    assert_eq!(Filter::Media.check(&Event::NewMessage(m.clone()), None), Ok(true));
    m.media = Some(MediaKind::Document);
    assert_eq!(Filter::Document.check(&Event::NewMessage(m.clone()), None), Ok(true));
    m.media = None;
    assert_eq!(Filter::Media.check(&Event::NewMessage(m), None), Ok(false));
}

#[test]
fn contact_covers_edits_but_sticker_does_not() {
    let mut m = message("x");
    m.media = Some(MediaKind::Contact);
    assert_eq!(Filter::Contact.check(&Event::NewMessage(m.clone()), None), Ok(true));
    assert_eq!(Filter::Contact.check(&Event::MessageEdited(m.clone()), None), Ok(true));
    assert_eq!(Filter::Contact.check(&Event::MessageDeleted, None), Ok(false));
    m.media = Some(MediaKind::Sticker);
    assert_eq!(Filter::Sticker.check(&Event::NewMessage(m.clone()), None), Ok(true));
    assert_eq!(Filter::Sticker.check(&Event::MessageEdited(m), None), Ok(false));
}

#[test]
fn message_flags_new_messages_only() {
    let mut m = message("x");
    m.forwarded = true;
    m.replied = true;
    m.mentioned = true;
    m.outgoing = true;
    assert_eq!(Filter::Forward.check(&Event::NewMessage(m.clone()), None), Ok(true));
    assert_eq!(Filter::Reply.check(&Event::NewMessage(m.clone()), None), Ok(true));
    assert_eq!(Filter::Mentioned.check(&Event::NewMessage(m.clone()), None), Ok(true));
    assert_eq!(Filter::OutGoing.check(&Event::NewMessage(m.clone()), None), Ok(true));
    assert_eq!(Filter::Forward.check(&Event::MessageEdited(m.clone()), None), Ok(false));
    assert_eq!(Filter::Reply.check(&Event::MessageEdited(m.clone()), None), Ok(false));
    assert_eq!(Filter::Mentioned.check(&Event::MessageEdited(m.clone()), None), Ok(false));
    assert_eq!(Filter::OutGoing.check(&Event::MessageEdited(m), None), Ok(false));
}

#[test]
fn administrator_uses_the_session_answer() {
    let mut m = message("x");
    m.chat_is_group = true;
    let group_msg = Event::NewMessage(m.clone());
    assert_eq!(Filter::Administrator.check(&group_msg, Some(true)), Ok(true));
    assert_eq!(Filter::Administrator.check(&group_msg, Some(false)), Ok(false));
    assert_eq!(
        Filter::Administrator.check(&group_msg, None),
        Err(dispatcher::DispatchError::PermissionLookupFailed)
    );
    // outside a group the lookup is never consulted
    let plain_msg = Event::NewMessage(message("x"));
    assert_eq!(Filter::Administrator.check(&plain_msg, None), Ok(false));
    let inline = Event::InlineQuery { sender_id: 20, text: "x".to_string() };
    assert_eq!(Filter::Administrator.check(&inline, Some(true)), Ok(false));
}

#[test]
fn regex_matches_the_query_string() {
    let f = Filter::Regex("^a+$".to_string());
    assert_eq!(f.check(&Event::NewMessage(message("aaa")), None), Ok(true));
    assert_eq!(f.check(&Event::NewMessage(message("b")), None), Ok(false));
    assert_eq!(f.check(&Event::MessageEdited(message("aa")), None), Ok(true));
    let inline = Event::InlineQuery { sender_id: 20, text: "aa".to_string() };
    assert_eq!(f.check(&inline, None), Ok(true));
}

#[test]
fn regex_reads_callback_payload_as_utf8() {
    let f = Filter::Regex("^hello$".to_string());
    assert_eq!(f.check(&callback(b"hello"), None), Ok(true));
    assert_eq!(f.check(&callback(b"other"), None), Ok(false));
}

#[test]
fn regex_on_kinds_without_query_sees_empty() {
    // deletions and raw events expose an empty query string
    assert_eq!(Filter::Regex("^$".to_string()).check(&Event::MessageDeleted, None), Ok(true));
    assert_eq!(Filter::Regex("x".to_string()).check(&Event::Raw, None), Ok(false));
}

#[test]
fn invalid_pattern_is_fatal() {
    let f = Filter::Regex("(".to_string());
    assert_eq!(
        f.check(&Event::NewMessage(message("x")), None),
        Err(dispatcher::DispatchError::InvalidRegex)
    );
}

#[test]
fn non_utf8_callback_payload_is_fatal() {
    let f = Filter::Regex(".*".to_string());
    assert_eq!(
        f.check(&callback(&[0xff, 0xfe]), None),
        Err(dispatcher::DispatchError::InvalidUtf8)
    );
}
