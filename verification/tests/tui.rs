use terminal_tube::line::{Color, Line, Span, Style};
use terminal_tube::tui::{push_line, should_quit, AppState, KeyAction, KeyCode, KeyEvent};
use terminal_tube::youtube::{LiveChatAuthorDetails, LiveChatMessage, LiveChatSnippet};

fn message(text: &str) -> LiveChatMessage {
    LiveChatMessage {
        snippet: LiveChatSnippet {
            display_message: Some(text.to_string()),
            message_type: None,
            super_chat_details: None,
        },
        author_details: LiveChatAuthorDetails {
            display_name: Some("A".to_string()),
            is_chat_owner: None,
            is_verified: None,
            is_chat_moderator: None,
            is_chat_sponsor: None,
        },
    }
}

fn batch(from: usize, to: usize) -> Vec<LiveChatMessage> {
    (from..to).map(|i| message(&format!("m{i}"))).collect()
}

fn body(line: &Line) -> &str {
    &line.spans.last().unwrap().text
}

fn key(code: KeyCode) -> KeyEvent {
    KeyEvent { code, control: false, alt: false }
}

fn ctrl(c: char) -> KeyEvent {
    KeyEvent { code: KeyCode::Char(c), control: true, alt: false }
}

fn type_text(state: &mut AppState, text: &str) {
    for c in text.chars() {
        assert!(matches!(state.on_key(&key(KeyCode::Char(c))), KeyAction::Nothing));
    }
}

#[test]
fn opening_screen() {
    let s = AppState::new("Launch", "Space");
    assert_eq!(s.title, "▶  Launch  ·  Space");
    assert_eq!(s.status, "Connecting…");
    assert_eq!(s.input, "");
    assert!(s.lines.is_empty());
}

#[test]
fn control_c_and_control_q_quit() {
    assert!(should_quit(&ctrl('c')));
    assert!(should_quit(&ctrl('q')));
    assert!(should_quit(&KeyEvent { code: KeyCode::Char('c'), control: true, alt: true }));
    assert!(!should_quit(&ctrl('C')));
    assert!(!should_quit(&ctrl('x')));
    assert!(!should_quit(&key(KeyCode::Char('c'))));
    assert!(!should_quit(&KeyEvent { code: KeyCode::Enter, control: true, alt: false }));
    let mut s = AppState::new("t", "c");
    type_text(&mut s, "abc");
    assert!(matches!(s.on_key(&ctrl('c')), KeyAction::Quit));
    assert_eq!(s.input, "abc");
}

#[test]
fn typing_adds_to_the_input() {
    let mut s = AppState::new("t", "c");
    type_text(&mut s, "héllo ");
    type_text(&mut s, "👋");
    assert_eq!(s.input, "héllo 👋");
}

#[test]
fn modified_characters_are_ignored() {
    let mut s = AppState::new("t", "c");
    s.on_key(&ctrl('x'));
    s.on_key(&KeyEvent { code: KeyCode::Char('y'), control: false, alt: true });
    s.on_key(&key(KeyCode::Other));
    assert_eq!(s.input, "");
}

#[test]
fn backspace_takes_the_last_character() {
    let mut s = AppState::new("t", "c");
    type_text(&mut s, "ab👋");
    s.on_key(&key(KeyCode::Backspace));
    assert_eq!(s.input, "ab");
    s.on_key(&key(KeyCode::Backspace));
    s.on_key(&key(KeyCode::Backspace));
    s.on_key(&key(KeyCode::Backspace));
    assert_eq!(s.input, "");
}

#[test]
fn enter_sends_the_trimmed_input() {
    let mut s = AppState::new("t", "c");
    type_text(&mut s, "  hello there \u{3000}");
    match s.on_key(&key(KeyCode::Enter)) {
        KeyAction::Send(text) => assert_eq!(text, "hello there"),
        other => panic!("{other:?}"),
    }
    assert_eq!(s.input, "");
    assert!(matches!(s.on_key(&key(KeyCode::Enter)), KeyAction::Nothing));
}

#[test]
fn enter_on_white_space_sends_nothing() {
    let mut s = AppState::new("t", "c");
    type_text(&mut s, " \u{a0} ");
    assert!(matches!(s.on_key(&key(KeyCode::Enter)), KeyAction::Nothing));
    assert_eq!(s.input, "");
}

#[test]
fn a_status_is_shown() {
    let mut s = AppState::new("t", "c");
    s.on_status("Connected".to_string());
    assert_eq!(s.status, "Connected");
    assert_eq!(s.title, "▶  t  ·  c");
}

#[test]
fn thirty_lines_are_followed_by_the_separator() {
    let mut s = AppState::new("t", "c");
    s.on_batch(batch(0, 30));
    assert_eq!(s.lines.len(), 31);
    assert_eq!(body(&s.lines[0]), "m0");
    assert_eq!(body(&s.lines[29]), "m29");
    let last = &s.lines[30];
    assert_eq!(last.spans.len(), 1);
    assert_eq!(last.spans[0].text, "──────────────────  history loaded  ──────────────────");
    assert_eq!(last.spans[0].style, Style { fg: Some(Color::DarkGray), bold: false });
    s.on_batch(batch(30, 32));
    assert_eq!(s.lines.len(), 33);
    assert_eq!(body(&s.lines[32]), "m31");
}

#[test]
fn fewer_or_more_lines_have_no_separator() {
    for n in [0usize, 1, 29, 31, 40] {
        let mut s = AppState::new("t", "c");
        s.on_batch(batch(0, n));
        assert_eq!(s.lines.len(), n);
    }
    let mut s = AppState::new("t", "c");
    s.on_batch(batch(0, 10));
    s.on_batch(batch(10, 30));
    assert_eq!(s.lines.len(), 31);
}

#[test]
fn the_oldest_lines_give_way() {
    let mut s = AppState::new("t", "c");
    s.on_batch(batch(0, 1005));
    assert_eq!(s.lines.len(), 1000);
    assert_eq!(body(&s.lines[0]), "m5");
    assert_eq!(body(&s.lines[999]), "m1004");
    let spans = vec![Span {
        text: "x".to_string(),
        style: Style { fg: None, bold: false },
    }];
    push_line(&mut s, Line { spans });
    assert_eq!(s.lines.len(), 1000);
    assert_eq!(body(&s.lines[0]), "m6");
    assert_eq!(body(&s.lines[999]), "x");
}

#[test]
fn an_overfull_chat_is_cut_when_a_line_comes() {
    let mut s = AppState::new("t", "c");
    for i in 0..1010 {
        let spans = vec![Span {
            text: format!("{i}"),
            style: Style { fg: None, bold: false },
        }];
        s.lines.push_back(Line { spans });
    }
    push_line(&mut s, Line { spans: vec![] });
    assert_eq!(s.lines.len(), 1000);
    assert_eq!(body(&s.lines[0]), "11");
}

#[test]
fn the_last_lines_of_all_batches_are_kept() {
    let mut s = AppState::new("t", "c");
    let mut all = Vec::new();
    for (from, to) in [(0usize, 30usize), (30, 500), (500, 500), (500, 1300), (1300, 1301)] {
        s.on_batch(batch(from, to));
        all.extend((from..to).map(|i| format!("m{i}")));
        if to == 30 {
            all.push("──────────────────  history loaded  ──────────────────".to_string());
        }
        let kept: Vec<String> = s.lines.iter().map(|l| body(l).to_string()).collect();
        assert_eq!(kept, all[all.len().saturating_sub(1000)..]);
    }
}
