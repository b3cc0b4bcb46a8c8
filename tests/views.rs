use im::chat::{scroll_limit, ChatAction, ChatView};
use im::config::Config;
use im::contacts::ContactsView;
use im::keys::{Flow, Key};
use im::message::{Message, MessageKind};
use im::setup::{InputField, SetupView, CURSOR};

fn message(text: &str, unix_time: i64) -> Message {
    Message {
        text: Some(text.to_string()),
        unix_time,
        clock: "10:00".to_string(),
        kind: None,
        outgoing: false,
    }
}

fn chat_with(n: i64) -> ChatView {
    let mut chat = ChatView::new("+15551234567".to_string(), "Mom".to_string());
    let newest_first: Vec<Message> = (0..n).rev().map(|i| message(&format!("m{}", i), i)).collect();
    chat.load_messages(newest_first);
    chat
}

#[test]
fn load_keeps_oldest_first() {
    let chat = chat_with(3);
    let texts: Vec<&str> = chat
        .messages()
        .iter()
        .map(|m| m.text.as_deref().unwrap())
        .collect();
    assert_eq!(texts, vec!["m0", "m1", "m2"]);
    assert!(chat.should_reset_scroll());
}

#[test]
fn first_frame_scrolls_to_newest() {
    let mut chat = chat_with(20);
    chat.prepare_frame(16);
    assert_eq!(chat.scroll(), 10);
    assert!(!chat.should_reset_scroll());
    chat.prepare_frame(30);
    assert_eq!(chat.scroll(), 10);
}

#[test]
fn empty_transcript_keeps_reset_pending() {
    let mut chat = ChatView::new("x".to_string(), "X".to_string());
    chat.prepare_frame(40);
    assert!(chat.should_reset_scroll());
    assert_eq!(chat.scroll(), 0);
}

#[test]
fn scroll_limit_values() {
    assert_eq!(scroll_limit(20, 16), 10);
    assert_eq!(scroll_limit(5, 16), 0);
    assert_eq!(scroll_limit(5, 3), 5);
    assert_eq!(scroll_limit(0, 0), 0);
}

#[test]
fn scroll_stays_clamped_under_key_repeat() {
    let mut chat = chat_with(20);
    chat.prepare_frame(16);
    for _ in 0..50 {
        assert!(matches!(chat.handle_key(Key::Down, 16), ChatAction::Continue));
    }
    assert_eq!(chat.scroll(), 10);
    for _ in 0..50 {
        chat.handle_key(Key::Up, 16);
    }
    assert_eq!(chat.scroll(), 0);
    chat.handle_key(Key::Down, 16);
    assert_eq!(chat.scroll(), 1);
}

#[test]
fn typing_editing_and_sending() {
    let mut chat = chat_with(1);
    assert!(matches!(chat.handle_key(Key::Enter, 20), ChatAction::Continue));
    chat.handle_key(Key::Backspace, 20);
    assert_eq!(chat.input(), "");
    chat.handle_key(Key::Char('h'), 20);
    chat.handle_key(Key::Char('i'), 20);
    chat.handle_key(Key::Char('!'), 20);
    chat.handle_key(Key::Backspace, 20);
    assert_eq!(chat.input(), "hi");
    match chat.handle_key(Key::Enter, 20) {
        ChatAction::Send(t) => assert_eq!(t, "hi"),
        _ => panic!("expected a send"),
    }
    assert_eq!(chat.input(), "");
    assert!(matches!(chat.send_finished(true), ChatAction::Reload));
    assert!(matches!(chat.send_finished(false), ChatAction::Continue));
}

#[test]
fn chat_quits_on_escape_and_ctrl_c() {
    let mut chat = chat_with(1);
    assert!(matches!(chat.handle_key(Key::Esc, 20), ChatAction::Quit));
    assert!(matches!(chat.handle_key(Key::CtrlC, 20), ChatAction::Quit));
    assert!(matches!(chat.handle_key(Key::Tab, 20), ChatAction::Continue));
}

#[test]
fn reload_after_send_shows_the_sent_message() {
    let mut chat = chat_with(2);
    let mut page = vec![message("just sent", 5)];
    page.extend((0..2).rev().map(|i| message(&format!("m{}", i), i)));
    chat.load_messages(page);
    assert_eq!(chat.messages().len(), 3);
    assert_eq!(chat.messages()[2].text.as_deref(), Some("just sent"));
}

#[test]
fn visible_range_follows_scroll() {
    let mut chat = chat_with(20);
    chat.prepare_frame(16);
    assert_eq!(chat.visible_range(10), (10, 20));
    assert_eq!(chat.visible_range(4), (10, 14));
    let empty = ChatView::new("x".to_string(), "X".to_string());
    assert_eq!(empty.visible_range(10), (0, 0));
}

#[test]
fn chat_view_accessors() {
    let chat = ChatView::new("+1".to_string(), "One".to_string());
    assert_eq!(chat.contact(), "+1");
    assert_eq!(chat.display_name(), "One");
    assert_eq!(chat.messages().len(), 0);
}

fn two_contacts() -> Config {
    let mut c = Config::default();
    c.add_contact("mom".to_string(), "+15551234567".to_string(), Some("Mom".to_string()));
    c.add_contact("dad".to_string(), "+15559876543".to_string(), None);
    c
}

#[test]
fn selection_is_clamped() {
    let mut v = ContactsView::new(two_contacts());
    v.handle_key(Key::Up);
    assert_eq!(v.selected_index(), 0);
    for _ in 0..5 {
        assert_eq!(v.handle_key(Key::Down), Flow::Continue);
    }
    assert_eq!(v.selected_index(), 1);
    v.handle_key(Key::Up);
    assert_eq!(v.selected_index(), 0);
}

#[test]
fn selection_on_empty_directory_stays_at_zero() {
    let mut v = ContactsView::new(Config::default());
    v.handle_key(Key::Down);
    v.handle_key(Key::Up);
    assert_eq!(v.selected_index(), 0);
    assert_eq!(v.contact_count(), 0);
}

#[test]
fn contacts_view_exits() {
    let mut v = ContactsView::new(Config::default());
    assert_eq!(v.handle_key(Key::Char('x')), Flow::Continue);
    assert_eq!(v.handle_key(Key::Char('q')), Flow::Exit);
    assert_eq!(v.handle_key(Key::Esc), Flow::Exit);
    assert_eq!(v.handle_key(Key::CtrlC), Flow::Exit);
}

#[test]
fn contacts_view_labels() {
    let mut c = two_contacts();
    let v = ContactsView::new(c.snapshot());
    assert_eq!(v.default_label(), "None");
    assert_eq!(
        v.contact_rows(),
        vec!["mom: Mom (+15551234567)".to_string(), "dad: +15559876543".to_string()]
    );
    c.set_default_contact("+15550000000".to_string());
    assert_eq!(ContactsView::new(c.snapshot()).default_label(), "+15550000000");
    c.set_default_display_name("Pat".to_string());
    assert_eq!(ContactsView::new(c).default_label(), "Pat (+15550000000)");
}

fn type_text(v: &mut SetupView, s: &str) {
    for c in s.chars() {
        assert_eq!(v.handle_key(Key::Char(c)), Flow::Continue);
    }
}

#[test]
fn setup_enter_with_empty_contact_stays() {
    let mut v = SetupView::new();
    assert_eq!(v.handle_key(Key::Enter), Flow::Continue);
    assert_eq!(v.get_config().default_contact(), None);
}

#[test]
fn setup_commits_normalized_contact() {
    let mut v = SetupView::new();
    type_text(&mut v, "5551234567");
    assert_eq!(v.handle_key(Key::Enter), Flow::Exit);
    let c = v.get_config();
    assert_eq!(c.default_contact(), Some("+15551234567".to_string()));
    assert_eq!(c.default_display_name(), None);
}

#[test]
fn setup_fields_and_cursor() {
    let mut v = SetupView::new();
    assert_eq!(v.active_field(), InputField::Contact);
    type_text(&mut v, "55x");
    v.handle_key(Key::Backspace);
    assert_eq!(v.contact_text(), format!("55{}", CURSOR));
    assert_eq!(v.handle_key(Key::Tab), Flow::Continue);
    assert_eq!(v.active_field(), InputField::DisplayName);
    type_text(&mut v, "Al");
    assert_eq!(v.contact_text(), "55");
    assert_eq!(v.display_name_text(), format!("Al{}", CURSOR));
    assert_eq!(v.handle_key(Key::Enter), Flow::Exit);
    let c = v.get_config();
    assert_eq!(c.default_contact(), Some("+155".to_string()));
    assert_eq!(c.default_display_name().map(|s| s.as_str()), Some("Al"));
}

#[test]
fn setup_cancel_returns_unchanged_directory() {
    let mut v = SetupView::new();
    type_text(&mut v, "555");
    assert_eq!(v.handle_key(Key::Esc), Flow::Exit);
    assert_eq!(v.get_config().default_contact(), None);
    assert_eq!(v.handle_key(Key::CtrlC), Flow::Exit);
}

#[test]
fn message_kinds_and_lines() {
    assert_eq!(MessageKind::from_label("Image"), Some(MessageKind::Image));
    assert_eq!(MessageKind::from_label("iMessage Effect"), Some(MessageKind::Effect));
    assert_eq!(MessageKind::from_label("Audio Message"), Some(MessageKind::AudioMessage));
    assert_eq!(MessageKind::from_label("Special Message"), Some(MessageKind::Special));
    assert_eq!(MessageKind::from_label("other"), None);
    assert_eq!(MessageKind::Effect.label(), "iMessage Effect");
    let mut m = message("hello", 0);
    assert_eq!(m.line(), "10:00: hello");
    m.text = None;
    m.kind = Some(MessageKind::Image);
    assert_eq!(m.content(), "[Image]");
    m.kind = None;
    assert_eq!(m.line(), "10:00: <empty message>");
}

#[test]
fn repeated_presses_reach_closed_form_positions() {
    let mut chat = chat_with(20);
    chat.prepare_frame(16);
    for _ in 0..3 {
        chat.handle_key(Key::Up, 16);
    }
    assert_eq!(chat.scroll(), 7);
    for _ in 0..2 {
        chat.handle_key(Key::Down, 16);
    }
    assert_eq!(chat.scroll(), 9);
    let mut c = Config::default();
    for name in ["a", "b", "c", "d"] {
        c.add_contact(name.to_string(), "+1".to_string(), None);
    }
    let mut v = ContactsView::new(c);
    for _ in 0..2 {
        v.handle_key(Key::Down);
    }
    assert_eq!(v.selected_index(), 2);
    for _ in 0..7 {
        v.handle_key(Key::Down);
    }
    assert_eq!(v.selected_index(), 3);
}
