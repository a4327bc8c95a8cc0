//! Chat messages as styled lines of text.
use vstd::prelude::*;

use crate::text::same_text;
use crate::youtube::{LiveChatAuthorDetails, LiveChatMessage};

verus! {

/// A terminal colour.
#[derive(Debug, Clone, Copy, PartialEq, Eq, Structural)]
pub enum Color {
    Blue,
    Cyan,
    DarkGray,
    Green,
    Magenta,
    White,
    Yellow,
}

/// How a piece of text is drawn. Without a foreground colour the terminal's own is used.
#[derive(Debug, Clone, Copy, PartialEq, Eq, Structural)]
pub struct Style {
    pub fg: Option<Color>,
    pub bold: bool,
}

/// A piece of text in one style.
#[derive(Debug, Clone)]
pub struct Span {
    pub text: String,
    pub style: Style,
}

/// What a span shows.
#[verifier::ext_equal]
pub struct SpanView {
    pub text: Seq<char>,
    pub style: Style,
}

impl View for Span {
    type V = SpanView;

    open spec fn view(&self) -> SpanView {
        SpanView { text: self.text@, style: self.style }
    }
}

/// A line of text.
#[derive(Debug, Clone)]
pub struct Line {
    pub spans: Vec<Span>,
}

impl View for Line {
    type V = Seq<SpanView>;

    open spec fn view(&self) -> Seq<SpanView> {
        Seq::new(self.spans@.len(), |i: int| self.spans@[i]@)
    }
}

/// The part that an author plays in a chat.
#[derive(Debug, Clone, Copy, PartialEq, Eq, Structural)]
pub enum Role {
    Owner,
    Moderator,
    Member,
    Viewer,
}

/// An author's most distinguished role. A verified author counts as the chat's owner.
pub open spec fn role(author: LiveChatAuthorDetails) -> Role {
    if author.is_chat_owner == Some(true) || author.is_verified == Some(true) {
        Role::Owner
    } else if author.is_chat_moderator == Some(true) {
        Role::Moderator
    } else if author.is_chat_sponsor == Some(true) {
        Role::Member
    } else {
        Role::Viewer
    }
}

/// The colour of a role's icon and of the names of those who have it.
pub open spec fn role_color(role: Role) -> Color {
    match role {
        Role::Owner => Color::Yellow,
        Role::Moderator => Color::Cyan,
        Role::Member => Color::Blue,
        Role::Viewer => Color::White,
    }
}

/// The icon before the name of an author with a role.
pub open spec fn role_icon(role: Role) -> Option<Seq<char>> {
    match role {
        Role::Owner => Some("👑 "@),
        Role::Moderator => Some("🔧 "@),
        Role::Member => Some("⭐ "@),
        Role::Viewer => None,
    }
}

/// The badge of an event and its colour. Ordinary messages have none.
pub open spec fn badge(kind: Seq<char>) -> Option<(Seq<char>, Color)> {
    if kind == "superChatEvent"@ {
        Some(("💰 SUPERCHAT"@, Color::Yellow))
    } else if kind == "superStickerEvent"@ {
        Some(("🎉 STICKER"@, Color::Magenta))
    } else if kind == "memberMilestoneChatEvent"@ {
        Some(("⭐ MEMBER"@, Color::Green))
    } else if kind == "newSponsorEvent"@ {
        Some(("🌟 NEW MEMBER"@, Color::Green))
    } else if kind == "membershipGiftingEvent"@ {
        Some(("🎁 GIFTING"@, Color::Blue))
    } else if kind == "giftMembershipReceivedEvent"@ {
        Some(("🎁 GIFT"@, Color::Blue))
    } else {
        None
    }
}

/// Text in a foreground colour.
pub open spec fn colored(text: Seq<char>, fg: Color) -> SpanView {
    SpanView { text, style: Style { fg: Some(fg), bold: false } }
}

/// Bold text in a foreground colour.
pub open spec fn bold(text: Seq<char>, fg: Color) -> SpanView {
    SpanView { text, style: Style { fg: Some(fg), bold: true } }
}

/// Text in the terminal's own style.
pub open spec fn plain(text: Seq<char>) -> SpanView {
    SpanView { text, style: Style { fg: None, bold: false } }
}

/// The text of an optional string, or another text if there is none.
pub open spec fn text_or(s: Option<String>, other: Seq<char>) -> Seq<char> {
    match s {
        Some(t) => t@,
        None => other,
    }
}

/// What a message is about: the name of its event, empty if the API gave none.
pub open spec fn event_of(msg: LiveChatMessage) -> Seq<char> {
    text_or(msg.snippet.message_type, Seq::empty())
}

/// The badge at the head of a message, with a blank behind it.
pub open spec fn badge_part(msg: LiveChatMessage) -> Seq<SpanView> {
    match badge(event_of(msg)) {
        Some((text, color)) => seq![bold(text + " "@, color)],
        None => seq![],
    }
}

/// The icon of the author's role.
pub open spec fn icon_part(msg: LiveChatMessage) -> Seq<SpanView> {
    let role = role(msg.author_details);
    match role_icon(role) {
        Some(icon) => seq![colored(icon, role_color(role))],
        None => seq![],
    }
}

/// The author's name, a colon, and what the message says.
pub open spec fn body_part(msg: LiveChatMessage) -> Seq<SpanView> {
    seq![
        bold(
            text_or(msg.author_details.display_name, "Unknown"@),
            role_color(role(msg.author_details)),
        ),
        colored(": "@, Color::DarkGray),
        plain(text_or(msg.snippet.display_message, Seq::empty())),
    ]
}

/// The amount paid for a Super Chat, if the API gave it.
pub open spec fn amount_of(msg: LiveChatMessage) -> Option<Seq<char>> {
    match msg.snippet.super_chat_details {
        Some(details) => crate::text::text_of(details.amount_display_string),
        None => None,
    }
}

/// The amount paid, in brackets, at the end of a Super Chat.
pub open spec fn amount_part(msg: LiveChatMessage) -> Seq<SpanView> {
    match amount_of(msg) {
        Some(amount) => if event_of(msg) == "superChatEvent"@ {
            seq![bold("  ["@ + amount + "]"@, Color::Yellow)]
        } else {
            seq![]
        },
        None => seq![],
    }
}

/// The line that shows a message: badge, role icon, name and text, amount paid.
pub open spec fn message_line(msg: LiveChatMessage) -> Seq<SpanView> {
    badge_part(msg) + icon_part(msg) + body_part(msg) + amount_part(msg)
}

impl Style {
    /// A foreground colour, not bold.
    pub fn colored(fg: Color) -> (r: Style)
        ensures
            r == (Style { fg: Some(fg), bold: false }),
    {
        Style { fg: Some(fg), bold: false }
    }

    /// A foreground colour, in bold.
    pub fn bold(fg: Color) -> (r: Style)
        ensures
            r == (Style { fg: Some(fg), bold: true }),
    {
        Style { fg: Some(fg), bold: true }
    }

    /// The terminal's own style.
    pub fn plain() -> (r: Style)
        ensures
            r == (Style { fg: None, bold: false }),
    {
        Style { fg: None, bold: false }
    }
}

fn is_set(flag: Option<bool>) -> (r: bool)
    ensures
        r == (flag == Some(true)),
{
    match flag {
        Some(b) => b,
        None => false,
    }
}

/// An author's most distinguished role.
pub fn role_of(author: &LiveChatAuthorDetails) -> (r: Role)
    ensures
        r == role(*author),
{
    if is_set(author.is_chat_owner) || is_set(author.is_verified) {
        Role::Owner
    } else if is_set(author.is_chat_moderator) {
        Role::Moderator
    } else if is_set(author.is_chat_sponsor) {
        Role::Member
    } else {
        Role::Viewer
    }
}

fn color_of_role(role: Role) -> (r: Color)
    ensures
        r == role_color(role),
{
    match role {
        Role::Owner => Color::Yellow,
        Role::Moderator => Color::Cyan,
        Role::Member => Color::Blue,
        Role::Viewer => Color::White,
    }
}

fn icon_of_role(role: Role) -> (r: Option<&'static str>)
    ensures
        r is Some <==> role_icon(role) is Some,
        r matches Some(icon) ==> Some(icon@) == role_icon(role),
{
    match role {
        Role::Owner => Some("👑 "),
        Role::Moderator => Some("🔧 "),
        Role::Member => Some("⭐ "),
        Role::Viewer => None,
    }
}

fn badge_of(kind: &str) -> (r: Option<(&'static str, Color)>)
    ensures
        r is Some <==> badge(kind@) is Some,
        r matches Some((text, color)) ==> badge(kind@) == Some((text@, color)),
{
    if same_text(kind, "superChatEvent") {
        Some(("💰 SUPERCHAT", Color::Yellow))
    } else if same_text(kind, "superStickerEvent") {
        Some(("🎉 STICKER", Color::Magenta))
    } else if same_text(kind, "memberMilestoneChatEvent") {
        Some(("⭐ MEMBER", Color::Green))
    } else if same_text(kind, "newSponsorEvent") {
        Some(("🌟 NEW MEMBER", Color::Green))
    } else if same_text(kind, "membershipGiftingEvent") {
        Some(("🎁 GIFTING", Color::Blue))
    } else if same_text(kind, "giftMembershipReceivedEvent") {
        Some(("🎁 GIFT", Color::Blue))
    } else {
        None
    }
}

fn copy_or(s: &Option<String>, other: &str) -> (r: String)
    ensures
        r@ == text_or(*s, other@),
{
    match s {
        Some(t) => t.clone(),
        None => other.to_string(),
    }
}

/// Shows a message as a line.
pub fn format_message(msg: &LiveChatMessage) -> (r: Line)
    ensures
        r@ == message_line(*msg),
{
    let name = copy_or(&msg.author_details.display_name, "Unknown");
    proof {
        reveal_strlit("");
        assert(""@ == Seq::<char>::empty());
    }
    let body = copy_or(&msg.snippet.display_message, "");
    let kind = copy_or(&msg.snippet.message_type, "");
    let role = role_of(&msg.author_details);
    let color = color_of_role(role);
    let mut line = Line { spans: Vec::new() };

    if let Some((text, badge_color)) = badge_of(kind.as_str()) {
        let mut label = text.to_string();
        label.append(" ");
        line.spans.push(Span { text: label, style: Style::bold(badge_color) });
    }
    assert(line@ == badge_part(*msg));

    if let Some(icon) = icon_of_role(role) {
        line.spans.push(Span { text: icon.to_string(), style: Style::colored(color) });
    }
    assert(line@ == badge_part(*msg) + icon_part(*msg));

    line.spans.push(Span { text: name, style: Style::bold(color) });
    line.spans.push(Span { text: ": ".to_string(), style: Style::colored(Color::DarkGray) });
    line.spans.push(Span { text: body, style: Style::plain() });
    assert(line@ == badge_part(*msg) + icon_part(*msg) + body_part(*msg));

    if same_text(kind.as_str(), "superChatEvent") {
        if let Some(details) = &msg.snippet.super_chat_details {
            if let Some(amount) = &details.amount_display_string {
                let mut text = "  [".to_string();
                text.append(amount.as_str());
                text.append("]");
                line.spans.push(Span { text, style: Style::bold(Color::Yellow) });
            }
        }
    }
    assert(line@ == message_line(*msg));
    line
}

/// Whether the API named an event as what a message is about.
pub open spec fn is_about(msg: LiveChatMessage, event: Seq<char>) -> bool {
    msg.snippet.message_type matches Some(t) && t@ == event
}

/// Whether a message is a Super Chat with a known amount.
pub open spec fn names_amount(msg: LiveChatMessage) -> bool {
    &&& is_about(msg, "superChatEvent"@)
    &&& msg.snippet.super_chat_details matches Some(details)
        && details.amount_display_string is Some
}

/// Where the text of a message stands in its line: behind everything but an amount.
pub open spec fn text_place(line: Line, msg: LiveChatMessage) -> int {
    line.spans@.len() - if names_amount(msg) {
        2int
    } else {
        1int
    }
}

/// A Super Chat whose amount is known ends with it, in brackets and bold yellow, whoever wrote it.
/// Every other line ends with the text of the message.
pub proof fn law_line_end(line: Line, msg: LiveChatMessage)
    requires
        line@ == message_line(msg),
    ensures
        ({
            let last = line.spans@[line.spans@.len() - 1];
            if names_amount(msg) {
                &&& last.text@ == "  ["@
                    + msg.snippet.super_chat_details->0.amount_display_string->0@ + "]"@
                &&& last.style == (Style { fg: Some(Color::Yellow), bold: true })
            } else {
                &&& last.text@ == match msg.snippet.display_message {
                    Some(text) => text@,
                    None => Seq::empty(),
                }
                &&& last.style == (Style { fg: None, bold: false })
            }
        }),
{
    lemma_line_places(line, msg);
    assert(line@[line.spans@.len() - 1] == line.spans@[line.spans@.len() - 1]@);
}

/// Every line holds the author's name in bold, a grey colon, and the whole text of the message,
/// in this order.
pub proof fn law_line_middle(line: Line, msg: LiveChatMessage)
    requires
        line@ == message_line(msg),
    ensures
        ({
            let at = text_place(line, msg);
            let author = msg.author_details;
            &&& at >= 2
            &&& line.spans@[at].text@ == match msg.snippet.display_message {
                Some(text) => text@,
                None => Seq::empty(),
            }
            &&& line.spans@[at].style == (Style { fg: None, bold: false })
            &&& line.spans@[at - 1].text@ == ": "@
            &&& line.spans@[at - 1].style == (Style { fg: Some(Color::DarkGray), bold: false })
            &&& line.spans@[at - 2].text@ == match author.display_name {
                Some(name) => name@,
                None => "Unknown"@,
            }
            &&& line.spans@[at - 2].style.bold
        }),
{
    lemma_line_places(line, msg);
    let at = text_place(line, msg);
    assert(line@[at] == line.spans@[at]@);
    assert(line@[at - 1] == line.spans@[at - 1]@);
    assert(line@[at - 2] == line.spans@[at - 2]@);
}

/// The owner of a chat and verified authors have a crown and a yellow name, otherwise moderators
/// a wrench and a cyan name, otherwise members a star and a blue name; all others have a white
/// name and no icon. The icon stands right before the name.
pub proof fn law_line_role(line: Line, msg: LiveChatMessage)
    requires
        line@ == message_line(msg),
    ensures
        ({
            let at = text_place(line, msg) - 2;
            let author = msg.author_details;
            let owner = author.is_chat_owner == Some(true) || author.is_verified == Some(true);
            let moderator = author.is_chat_moderator == Some(true);
            let member = author.is_chat_sponsor == Some(true);
            &&& line.spans@[at].style.fg == Some(
                if owner {
                    Color::Yellow
                } else if moderator {
                    Color::Cyan
                } else if member {
                    Color::Blue
                } else {
                    Color::White
                },
            )
            &&& owner || moderator || member ==> {
                &&& at >= 1
                &&& line.spans@[at - 1].text@ == if owner {
                    "👑 "@
                } else if moderator {
                    "🔧 "@
                } else {
                    "⭐ "@
                }
                &&& line.spans@[at - 1].style == (Style { fg: line.spans@[at].style.fg, bold: false })
            }
        }),
{
    lemma_line_places(line, msg);
    let at = text_place(line, msg) - 2;
    assert(line@[at] == line.spans@[at]@);
    if at >= 1 {
        assert(line@[at - 1] == line.spans@[at - 1]@);
    }
}

/// A line about one of the six events that have a badge begins with the badge, in bold and in the
/// colour of the event, whoever wrote it. No other line has anything before icon and name.
pub proof fn law_line_badge(line: Line, msg: LiveChatMessage)
    requires
        line@ == message_line(msg),
    ensures
        is_about(msg, "superChatEvent"@) ==> line.spans@[0].text@ == "💰 SUPERCHAT"@ + " "@
            && line.spans@[0].style == (Style { fg: Some(Color::Yellow), bold: true }),
        is_about(msg, "superStickerEvent"@) ==> line.spans@[0].text@ == "🎉 STICKER"@ + " "@
            && line.spans@[0].style == (Style { fg: Some(Color::Magenta), bold: true }),
        is_about(msg, "memberMilestoneChatEvent"@) ==> line.spans@[0].text@ == "⭐ MEMBER"@ + " "@
            && line.spans@[0].style == (Style { fg: Some(Color::Green), bold: true }),
        is_about(msg, "newSponsorEvent"@) ==> line.spans@[0].text@ == "🌟 NEW MEMBER"@ + " "@
            && line.spans@[0].style == (Style { fg: Some(Color::Green), bold: true }),
        is_about(msg, "membershipGiftingEvent"@) ==> line.spans@[0].text@ == "🎁 GIFTING"@ + " "@
            && line.spans@[0].style == (Style { fg: Some(Color::Blue), bold: true }),
        is_about(msg, "giftMembershipReceivedEvent"@) ==> line.spans@[0].text@ == "🎁 GIFT"@ + " "@
            && line.spans@[0].style == (Style { fg: Some(Color::Blue), bold: true }),
{
    lemma_line_places(line, msg);
    lemma_event_names();
    assert(line@[0] == line.spans@[0]@);
}

/// A line has its three middle parts, and one more each for a badge, an icon and an amount.
pub proof fn law_line_len(line: Line, msg: LiveChatMessage)
    requires
        line@ == message_line(msg),
    ensures
        ({
            let author = msg.author_details;
            let badge: int = if is_about(msg, "superChatEvent"@) || is_about(
                msg,
                "superStickerEvent"@,
            ) || is_about(msg, "memberMilestoneChatEvent"@) || is_about(msg, "newSponsorEvent"@)
                || is_about(msg, "membershipGiftingEvent"@) || is_about(
                msg,
                "giftMembershipReceivedEvent"@,
            ) {
                1
            } else {
                0
            };
            let icon: int = if author.is_chat_owner == Some(true) || author.is_verified == Some(true)
                || author.is_chat_moderator == Some(true) || author.is_chat_sponsor == Some(true) {
                1
            } else {
                0
            };
            let amount: int = if names_amount(msg) {
                1
            } else {
                0
            };
            line.spans@.len() == 3 + badge + icon + amount
        }),
{
    lemma_line_places(line, msg);
    lemma_event_names();
}

/// No two of the six events have names of the same length.
proof fn lemma_event_names()
    ensures
        "superChatEvent"@.len() == 14,
        "superStickerEvent"@.len() == 17,
        "memberMilestoneChatEvent"@.len() == 24,
        "newSponsorEvent"@.len() == 15,
        "membershipGiftingEvent"@.len() == 22,
        "giftMembershipReceivedEvent"@.len() == 27,
{
    reveal_strlit("superChatEvent");
    reveal_strlit("superStickerEvent");
    reveal_strlit("memberMilestoneChatEvent");
    reveal_strlit("newSponsorEvent");
    reveal_strlit("membershipGiftingEvent");
    reveal_strlit("giftMembershipReceivedEvent");
}

/// Where the parts of a line stand.
proof fn lemma_line_places(line: Line, msg: LiveChatMessage)
    requires
        line@ == message_line(msg),
    ensures
        line.spans@.len() == line@.len(),
        ({
            let at = text_place(line, msg);
            let b = badge_part(msg).len() as int;
            let i = icon_part(msg).len() as int;
            &&& at == b + i + 2
            &&& line@[at] == body_part(msg)[2]
            &&& line@[at - 1] == body_part(msg)[1]
            &&& line@[at - 2] == body_part(msg)[0]
            &&& i > 0 ==> i == 1 && line@[at - 3] == icon_part(msg)[0]
            &&& b > 0 ==> b == 1 && line@[0] == badge_part(msg)[0]
            &&& names_amount(msg) ==> line@[at + 1] == amount_part(msg)[0]
        }),
{
    lemma_event_names();
}

} // verus!
