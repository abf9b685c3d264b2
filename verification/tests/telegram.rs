use bot_core::config::load_v3_config;
use bot_core::json::{find_member, parse, Json};
use bot_core::notifications::telegram_notifier::{
    clip, create_telegram_notifier, parse_telegram_command, CommandListener, ListenerAction,
    TelegramGetUpdatesPayload, TelegramMessage, TelegramNotifier, TelegramUpdate,
};
use bot_core::types::Config;

fn config(token: Option<&str>, chat: Option<&str>) -> Config {
    let mut config = match load_v3_config(&Vec::new(), "/srv/bot", &Vec::new()) {
        Ok(config) => config,
        Err(message) => panic!("{}", message),
    };
    config.telegram_bot_token = token.map(|s| s.to_owned());
    config.telegram_chat_id = chat.map(|s| s.to_owned());
    config
}

fn notifier() -> TelegramNotifier {
    create_telegram_notifier(&config(Some("T"), Some("-42")))
}

fn update(update_id: i64, chat_id: i64, text: &str) -> TelegramUpdate {
    TelegramUpdate {
        update_id,
        message: Some(TelegramMessage { chat_id, text: Some(text.to_owned()) }),
    }
}

#[test]
fn long_texts_are_clipped() {
    assert_eq!(clip("abcdef", 6), "abcdef");
    assert_eq!(clip("abcdefg", 6), "abc...");
    assert_eq!(clip("abcdefg", 2), "...");
    assert_eq!(clip("äöüäöü", 5), "äö...");
}

#[test]
fn first_word_is_the_command() {
    assert_eq!(
        parse_telegram_command(&Some("  /PAUSE now".to_owned())).as_deref(),
        Some("/pause")
    );
    assert!(parse_telegram_command(&Some("   ".to_owned())).is_none());
    assert!(parse_telegram_command(&None).is_none());
}

#[test]
fn message_is_sent_to_the_chat() {
    let request = notifier().send(&"x".repeat(4000)).expect("the chat is set up");
    assert_eq!(request.url, "https://api.telegram.org/botT/sendMessage");
    let body = parse(&request.body).expect("the body is JSON");
    let entries = body.as_object().expect("the body is an object");
    assert!(matches!(find_member(entries, "chat_id"), Some(Json::Text(s)) if s == "-42"));
    assert!(matches!(find_member(entries, "text"), Some(Json::Text(s)) if s.len() == 3800));
    assert!(matches!(
        find_member(entries, "disable_web_page_preview"),
        Some(Json::Bool(true))
    ));
}

#[test]
fn nothing_is_sent_without_a_chat() {
    let quiet = create_telegram_notifier(&config(Some("T"), None));
    assert!(!quiet.enabled);
    assert!(quiet.send("hello").is_none());
    assert!(quiet.updates_url().is_none());
}

#[test]
fn listener_is_started_once() {
    let mut n = notifier();
    assert!(n.start_command_listener());
    assert!(!n.start_command_listener());
    let mut quiet = create_telegram_notifier(&config(None, None));
    assert!(!quiet.start_command_listener());
}

#[test]
fn pause_is_told_once() {
    let mut n = notifier();
    assert_eq!(
        n.set_paused(true, Some("loss")).as_deref(),
        Some("[POLYMARKET BOT CONTROL]\nTrading paused (use /resume to continue).\nReason: loss")
    );
    assert!(n.is_paused());
    assert!(n.set_paused(true, None).is_none());
    assert_eq!(
        n.set_paused(false, Some(" ")).as_deref(),
        Some("[POLYMARKET BOT CONTROL]\nTrading resumed.")
    );
    assert!(!n.is_paused());
}

#[test]
fn first_answer_only_shows_where_to_begin() {
    let mut listener = CommandListener::new();
    assert_eq!(listener.query(), vec![("timeout".to_owned(), "25".to_owned())]);
    let backlog = TelegramGetUpdatesPayload {
        ok: true,
        result: Some(vec![update(7, -42, "/pause"), update(9, -42, "/pause")]),
    };
    assert!(matches!(listener.on_payload(Some(backlog)), ListenerAction::LookAgain));
    assert_eq!(
        listener.query(),
        vec![
            ("timeout".to_owned(), "25".to_owned()),
            ("offset".to_owned(), "10".to_owned())
        ]
    );
    let news = TelegramGetUpdatesPayload { ok: true, result: Some(vec![update(10, -42, "x")]) };
    match listener.on_payload(Some(news)) {
        ListenerAction::TakeIn(updates) => assert_eq!(updates.len(), 1),
        _ => panic!("the update is taken in"),
    }
    assert!(matches!(listener.on_payload(None), ListenerAction::BackOff(2000)));
    let refused = TelegramGetUpdatesPayload { ok: false, result: None };
    assert!(matches!(listener.on_payload(Some(refused)), ListenerAction::BackOff(2000)));
}

#[test]
fn commands_are_obeyed_and_answered() {
    let mut listener = CommandListener::new();
    let mut n = notifier();
    assert_eq!(
        listener.on_update(&mut n, &update(1, -42, "/pause")).as_deref(),
        Some("[POLYMARKET BOT CONTROL]\nTrading paused (use /resume to continue).")
    );
    assert!(n.is_paused());
    assert_eq!(listener.next_update_offset, Some(2));
    assert_eq!(
        listener.on_update(&mut n, &update(2, -42, "/pause")).as_deref(),
        Some("[POLYMARKET BOT CONTROL]\nTrading is already paused.")
    );
    assert_eq!(
        listener.on_update(&mut n, &update(3, -42, "/status")).as_deref(),
        Some("[POLYMARKET BOT CONTROL]\nTrading status: PAUSED.\nCommands: /pause /resume /status")
    );
    assert_eq!(
        listener.on_update(&mut n, &update(4, -42, "/resume")).as_deref(),
        Some("[POLYMARKET BOT CONTROL]\nTrading resumed.")
    );
    assert_eq!(
        listener.on_update(&mut n, &update(5, -42, "/resume")).as_deref(),
        Some("[POLYMARKET BOT CONTROL]\nTrading is already running.")
    );
    assert!(listener.on_update(&mut n, &update(6, -42, "hello")).is_none());
}

#[test]
fn other_chats_are_ignored() {
    let mut listener = CommandListener::new();
    let mut n = notifier();
    assert!(listener.on_update(&mut n, &update(1, 43, "/pause")).is_none());
    assert!(!n.is_paused());
    assert_eq!(listener.next_update_offset, Some(2));
    let silent = TelegramUpdate { update_id: 5, message: None };
    assert!(listener.on_update(&mut n, &silent).is_none());
    assert_eq!(listener.next_update_offset, Some(6));
}
