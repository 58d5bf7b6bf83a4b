use dispatcher::filters::{chat, command, regex, text};
use dispatcher::{Config, Event, Filter, MessageData};

fn config() -> Config {
    Config::new(
        Some("botname".to_string()),
        vec!["/".to_string(), "!".to_string()],
    )
}

fn message(text: &str) -> Event {
    Event::NewMessage(MessageData {
        chat_id: 10,
        sender_id: Some(20),
        chat_is_group: false,
        text: text.to_string(),
        media: None,
        forwarded: false,
        replied: false,
        mentioned: false,
        outgoing: false,
    })
}

fn matches(f: &Filter, s: &str) -> bool {
    f.check(&message(s), None).unwrap()
}

#[test]
fn command_builds_the_documented_pattern() {
    assert_eq!(
        command(&config(), "start"),
        Filter::Regex("^[/!]start(?:@botname)?".to_string())
    );
}

#[test]
fn command_matches_prefixed_forms_only() {
    let f = command(&config(), "start");
    assert!(matches(&f, "/start"));
    assert!(matches(&f, "!start"));
    assert!(matches(&f, "/start@botname"));
    assert!(!matches(&f, "start"));
    assert!(!matches(&f, "#start"));
}

#[test]
fn command_keeps_the_end_anchor() {
    let cfg = Config::new(Some("botname".to_string()), vec!["/".to_string()]);
    let f = command(&cfg, "ping$");
    assert_eq!(f, Filter::Regex("^[/]ping(?:@botname)?$".to_string()));
    assert!(matches(&f, "/ping"));
    assert!(matches(&f, "/ping@botname"));
    assert!(!matches(&f, "/pingextra"));
    assert!(!matches(&f, "ping"));
}

#[test]
fn command_keeps_only_the_first_token() {
    let cfg = Config::new(Some("bot".to_string()), vec!["/".to_string()]);
    assert_eq!(
        command(&cfg, "start now"),
        Filter::Regex("^[/]start(?:@bot)?".to_string())
    );
    // a single token, even with leading whitespace, is kept whole
    assert_eq!(
        command(&cfg, " start"),
        Filter::Regex("^[/] start(?:@bot)?".to_string())
    );
}

#[test]
fn command_without_username_appends_empty_group() {
    let cfg = Config::new(None, vec!["/".to_string()]);
    let f = command(&cfg, "help");
    assert_eq!(f, Filter::Regex("^[/]help(?:@)?".to_string()));
    assert!(matches(&f, "/help"));
}

#[test]
fn config_exposes_username_and_prefixes() {
    let cfg = config();
    assert_eq!(cfg.username(), "botname");
    assert_eq!(Config::new(None, vec![]).username(), "");
    assert_eq!(cfg.prefixes().as_slice(), &["/".to_string(), "!".to_string()]);
}

#[test]
fn builders_wrap_their_arguments() {
    assert_eq!(chat(5), Filter::Chat(5));
    assert_eq!(regex("^a$"), Filter::Regex("^a$".to_string()));
    assert_eq!(text("hi"), Filter::Text("hi".to_string()));
}
