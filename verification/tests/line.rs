use terminal_tube::line::{format_message, Color, Line, Style};
use terminal_tube::youtube::{
    LiveChatAuthorDetails, LiveChatMessage, LiveChatSnippet, SuperChatDetails,
};

fn message(kind: Option<&str>, roles: [Option<bool>; 4]) -> LiveChatMessage {
    LiveChatMessage {
        snippet: LiveChatSnippet {
            display_message: Some("hello".to_string()),
            message_type: kind.map(|k| k.to_string()),
            super_chat_details: None,
        },
        author_details: LiveChatAuthorDetails {
            display_name: Some("Ada".to_string()),
            is_chat_owner: roles[0],
            is_verified: roles[1],
            is_chat_moderator: roles[2],
            is_chat_sponsor: roles[3],
        },
    }
}

fn colored(c: Color) -> Style {
    Style { fg: Some(c), bold: false }
}

fn bold(c: Color) -> Style {
    Style { fg: Some(c), bold: true }
}

fn pieces(line: &Line) -> Vec<(&str, Style)> {
    line.spans.iter().map(|s| (s.text.as_str(), s.style)).collect()
}

const PLAIN: Style = Style { fg: None, bold: false };

#[test]
fn an_ordinary_message() {
    let line = format_message(&message(Some("textMessageEvent"), [None; 4]));
    assert_eq!(
        pieces(&line),
        vec![("Ada", bold(Color::White)), (": ", colored(Color::DarkGray)), ("hello", PLAIN)]
    );
}

#[test]
fn a_message_without_anything() {
    let mut m = message(None, [Some(false); 4]);
    m.snippet.display_message = None;
    m.author_details.display_name = None;
    assert_eq!(
        pieces(&format_message(&m)),
        vec![("Unknown", bold(Color::White)), (": ", colored(Color::DarkGray)), ("", PLAIN)]
    );
}

#[test]
fn roles_have_icons_and_colours() {
    let t = Some(true);
    let cases = [
        ([t, None, None, None], "👑 ", Color::Yellow),
        ([None, t, None, None], "👑 ", Color::Yellow),
        ([Some(false), t, t, t], "👑 ", Color::Yellow),
        ([None, None, t, None], "🔧 ", Color::Cyan),
        ([None, None, t, t], "🔧 ", Color::Cyan),
        ([None, None, Some(false), t], "⭐ ", Color::Blue),
    ];
    for (roles, icon, color) in cases {
        let line = format_message(&message(None, roles));
        assert_eq!(pieces(&line)[0], (icon, colored(color)));
        assert_eq!(pieces(&line)[1], ("Ada", bold(color)));
        assert_eq!(line.spans.len(), 4);
    }
}

#[test]
fn events_have_badges() {
    let cases = [
        ("superChatEvent", "💰 SUPERCHAT ", Color::Yellow),
        ("superStickerEvent", "🎉 STICKER ", Color::Magenta),
        ("memberMilestoneChatEvent", "⭐ MEMBER ", Color::Green),
        ("newSponsorEvent", "🌟 NEW MEMBER ", Color::Green),
        ("membershipGiftingEvent", "🎁 GIFTING ", Color::Blue),
        ("giftMembershipReceivedEvent", "🎁 GIFT ", Color::Blue),
    ];
    for (kind, badge, color) in cases {
        let line = format_message(&message(Some(kind), [None; 4]));
        assert_eq!(pieces(&line)[0], (badge, bold(color)));
        assert_eq!(line.spans.len(), 4);
    }
    assert_eq!(format_message(&message(Some("other"), [None; 4])).spans.len(), 3);
}

#[test]
fn a_super_chat_shows_its_amount() {
    let mut m = message(Some("superChatEvent"), [None, None, Some(true), None]);
    m.snippet.super_chat_details =
        Some(SuperChatDetails { amount_display_string: Some("€5.00".to_string()) });
    let line = format_message(&m);
    assert_eq!(
        pieces(&line),
        vec![
            ("💰 SUPERCHAT ", bold(Color::Yellow)),
            ("🔧 ", colored(Color::Cyan)),
            ("Ada", bold(Color::Cyan)),
            (": ", colored(Color::DarkGray)),
            ("hello", PLAIN),
            ("  [€5.00]", bold(Color::Yellow)),
        ]
    );
    m.snippet.super_chat_details = Some(SuperChatDetails { amount_display_string: None });
    assert_eq!(format_message(&m).spans.len(), 5);
    m.snippet.message_type = Some("superStickerEvent".to_string());
    m.snippet.super_chat_details =
        Some(SuperChatDetails { amount_display_string: Some("€5.00".to_string()) });
    assert_eq!(format_message(&m).spans.len(), 5);
}
