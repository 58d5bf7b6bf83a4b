use dispatcher::{Event, Filter, Handler, HandlerType, MessageData};

fn message(text: &str) -> Event {
    Event::NewMessage(MessageData {
        chat_id: 10,
        sender_id: Some(20),
        chat_is_group: false,
        text: text.to_string(),
        media: None,
        forwarded: false,
        replied: false,
        mentioned: false,
        outgoing: false,
    })
}

fn callback(data: &[u8]) -> Event {
    Event::CallbackQuery { chat_id: 10, sender_id: 20, chat_is_group: false, data: data.to_vec() }
}

fn text_filter(s: &str) -> Filter {
    Filter::Text(s.to_string())
}

#[test]
fn type_gate_rejects_unaccepted_kind() {
    // accepted kinds exclude messages; no link: false whatever the filters say
    let h = Handler::new(vec![HandlerType::CallbackQuery], vec![Filter::All]);
    assert_eq!(h.check(&message("hi"), None), Ok(false));
}

#[test]
fn type_gate_rejects_with_and_link_too() {
    let always = Handler::new(vec![HandlerType::Message], vec![Filter::All]);
    let h = Handler::new(vec![HandlerType::CallbackQuery], vec![Filter::All]).and(always);
    assert_eq!(h.check(&message("hi"), None), Ok(false));
}

#[test]
fn empty_filter_list_never_matches() {
    // the kind is accepted, but filters default to "no match"
    let h = Handler::new(vec![HandlerType::Message], vec![]);
    assert_eq!(h.check(&message("hi"), None), Ok(false));
}

#[test]
fn single_filter_decides() {
    let h = Handler::new(vec![HandlerType::Message], vec![text_filter("a")]);
    assert_eq!(h.check(&message("a"), None), Ok(true));
    assert_eq!(h.check(&message("b"), None), Ok(false));
}

#[test]
fn later_filter_can_still_match() {
    let h = Handler::new(
        vec![HandlerType::Message],
        vec![text_filter("a"), text_filter("b")],
    );
    assert_eq!(h.check(&message("b"), None), Ok(true));
}

#[test]
fn and_chain_needs_both_sides() {
    let h1 = || Handler::new(vec![HandlerType::Message], vec![text_filter("a")]);
    let h2_pass = Handler::new(vec![HandlerType::Message], vec![Filter::All]);
    assert_eq!(h1().and(h2_pass).check(&message("a"), None), Ok(true));

    let h2_fail = Handler::new(vec![HandlerType::Message], vec![text_filter("b")]);
    assert_eq!(h1().and(h2_fail).check(&message("a"), None), Ok(false));

    let h2_pass2 = Handler::new(vec![HandlerType::Message], vec![Filter::All]);
    assert_eq!(h1().and(h2_pass2).check(&message("b"), None), Ok(false));
}

#[test]
fn or_link_decides_when_gate_fails() {
    // H1 accepts only messages; a callback event bypasses H1's filters
    // entirely and is decided solely by H2
    let h2 = Handler::new(vec![HandlerType::CallbackQuery], vec![Filter::All]);
    let h1 = Handler::new(vec![HandlerType::Message], vec![text_filter("never")]).or(h2);
    assert_eq!(h1.check(&callback(b"x"), None), Ok(true));

    let h2_reject = Handler::new(vec![HandlerType::CallbackQuery], vec![Filter::Chat(99)]);
    let h1b = Handler::new(vec![HandlerType::Message], vec![Filter::All]).or(h2_reject);
    assert_eq!(h1b.check(&callback(b"x"), None), Ok(false));
}

#[test]
fn or_link_is_ignored_when_gate_passes() {
    // with the kind accepted, the handler's own filters decide; the Or link
    // is not a fallback for failing filters
    let h2 = Handler::new(vec![HandlerType::Message], vec![Filter::All]);
    let h1 = Handler::new(vec![HandlerType::Message], vec![text_filter("a")]).or(h2);
    assert_eq!(h1.check(&message("b"), None), Ok(false));
}

#[test]
fn accepts_reads_the_kind_list() {
    let h = Handler::new(
        vec![HandlerType::Message, HandlerType::Raw],
        vec![Filter::All],
    );
    assert!(h.accepts(HandlerType::Message));
    assert!(h.accepts(HandlerType::Raw));
    assert!(!h.accepts(HandlerType::InlineQuery));
    assert_eq!(h.filters().len(), 1);
}

#[test]
fn filter_error_propagates_through_check() {
    let h = Handler::new(vec![HandlerType::Message], vec![Filter::Regex("(".to_string())]);
    assert_eq!(
        h.check(&message("x"), None),
        Err(dispatcher::DispatchError::InvalidRegex)
    );
}

#[test]
fn handler_type_defaults_to_raw() {
    assert_eq!(HandlerType::default(), HandlerType::Raw);
}
