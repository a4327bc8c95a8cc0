//! What the terminal shows and what keys do.
use std::collections::VecDeque;
use vstd::prelude::*;

use crate::line::{colored, format_message, message_line, Color, Line, Span, SpanView, Style};
use crate::poll::HISTORY_LINES;
use crate::tail::{last_of, law_last_of, lemma_last_of_concat};
use crate::text::{is_gap, law_trim_between, law_trimmed, trim, trimmed, white_space};
use crate::youtube::LiveChatMessage;

verus! {

/// How many lines of chat are kept.
pub const MAX_LINES: usize = 1000;

/// What the terminal shows.
#[derive(Debug)]
pub struct AppState {
    pub title: String,
    pub status: String,
    pub input: String,
    pub lines: VecDeque<Line>,
}

/// The texts that the terminal shows.
#[verifier::ext_equal]
pub struct AppView {
    pub title: Seq<char>,
    pub status: Seq<char>,
    pub input: Seq<char>,
    pub lines: Seq<Seq<SpanView>>,
}

/// The texts of a sequence of lines.
pub open spec fn views(lines: Seq<Line>) -> Seq<Seq<SpanView>> {
    Seq::new(lines.len(), |i: int| lines[i]@)
}

/// The lines that show a batch of messages.
pub open spec fn message_lines(batch: Seq<LiveChatMessage>) -> Seq<Seq<SpanView>> {
    Seq::new(batch.len(), |i: int| message_line(batch[i]))
}

impl View for AppState {
    type V = AppView;

    open spec fn view(&self) -> AppView {
        AppView {
            title: self.title@,
            status: self.status@,
            input: self.input@,
            lines: views(self.lines@),
        }
    }
}

/// A key of the keyboard. Those that do nothing here are not told apart.
#[derive(Debug, Clone, Copy, PartialEq, Eq, Structural)]
pub enum KeyCode {
    Enter,
    Backspace,
    Char(char),
    Other,
}

/// A key, with the modifiers held down.
#[derive(Debug, Clone, Copy, PartialEq, Eq, Structural)]
pub struct KeyEvent {
    pub code: KeyCode,
    pub control: bool,
    pub alt: bool,
}

/// What a key asks for: to leave, to send a message, or nothing outside the terminal.
#[derive(Debug)]
pub enum KeyAction {
    Quit,
    Send(String),
    Nothing,
}

/// What a key asks for, with the text of the message.
pub enum ActionView {
    Quit,
    Send(Seq<char>),
    Nothing,
}

impl View for KeyAction {
    type V = ActionView;

    open spec fn view(&self) -> ActionView {
        match *self {
            KeyAction::Quit => ActionView::Quit,
            KeyAction::Send(text) => ActionView::Send(text@),
            KeyAction::Nothing => ActionView::Nothing,
        }
    }
}

/// Ctrl+C and Ctrl+Q leave.
pub open spec fn quits(key: KeyEvent) -> bool {
    key.control && (key.code == KeyCode::Char('c') || key.code == KeyCode::Char('q'))
}

/// What the input line holds after a key.
pub open spec fn input_after(input: Seq<char>, key: KeyEvent) -> Seq<char> {
    if quits(key) {
        input
    } else {
        match key.code {
            KeyCode::Enter => Seq::empty(),
            KeyCode::Backspace => if input.len() > 0 {
                input.drop_last()
            } else {
                input
            },
            KeyCode::Char(c) => if key.control || key.alt {
                input
            } else {
                input.push(c)
            },
            KeyCode::Other => input,
        }
    }
}

/// What a key asks for, given the input line. Enter sends the input without the white space at
/// its ends, unless nothing else is in it.
pub open spec fn action_of(input: Seq<char>, key: KeyEvent) -> ActionView {
    if quits(key) {
        ActionView::Quit
    } else if key.code == KeyCode::Enter && trimmed(input).len() > 0 {
        ActionView::Send(trimmed(input))
    } else {
        ActionView::Nothing
    }
}

/// What the terminal shows after a key.
pub open spec fn after_key(app: AppView, key: KeyEvent) -> AppView {
    AppView { input: input_after(app.input, key), ..app }
}

/// The line that ends the history shown at the start.
pub open spec fn separator() -> Seq<SpanView> {
    seq![colored("──────────────────  history loaded  ──────────────────"@, Color::DarkGray)]
}

/// Lines with others added at the end. The oldest give way once there are too many.
pub open spec fn with_lines(
    lines: Seq<Seq<SpanView>>,
    more: Seq<Seq<SpanView>>,
) -> Seq<Seq<SpanView>> {
    if more.len() == 0 {
        lines
    } else {
        last_of(lines + more, MAX_LINES as nat)
    }
}

/// Lines after a batch of messages: one for each, and a separator if that makes as many as the
/// history shown at the start.
pub open spec fn lines_after(
    lines: Seq<Seq<SpanView>>,
    batch: Seq<LiveChatMessage>,
) -> Seq<Seq<SpanView>> {
    let filled = with_lines(lines, message_lines(batch));
    if filled.len() == HISTORY_LINES {
        with_lines(filled, seq![separator()])
    } else {
        filled
    }
}

/// What the terminal shows after a batch of messages.
pub open spec fn after_batch(app: AppView, batch: Seq<LiveChatMessage>) -> AppView {
    AppView { lines: lines_after(app.lines, batch), ..app }
}

/// What the terminal shows after a new status.
pub open spec fn after_status(app: AppView, status: Seq<char>) -> AppView {
    AppView { status, ..app }
}

/// What the terminal shows at the start.
pub open spec fn opening(video_title: Seq<char>, channel: Seq<char>) -> AppView {
    AppView {
        title: "▶  "@ + video_title + "  ·  "@ + channel,
        status: "Connecting…"@,
        input: Seq::empty(),
        lines: Seq::empty(),
    }
}

/// Whether a key leaves.
pub fn should_quit(key: &KeyEvent) -> (r: bool)
    ensures
        r == quits(*key),
{
    key.control && (key.code == KeyCode::Char('c') || key.code == KeyCode::Char('q'))
}

/// Adds a line at the end. The oldest give way once there are too many.
pub fn push_line(state: &mut AppState, line: Line)
    ensures
        final(state).lines@ == last_of(old(state).lines@.push(line), MAX_LINES as nat),
        final(state)@ == (AppView {
            lines: with_lines(old(state)@.lines, seq![line@]),
            ..old(state)@
        }),
{
    let ghost all = state.lines@.push(line);
    state.lines.push_back(line);
    while state.lines.len() > MAX_LINES
        invariant
            state.title == old(state).title,
            state.status == old(state).status,
            state.input == old(state).input,
            state.lines@.len() <= all.len(),
            state.lines@ == all.skip(all.len() - state.lines@.len()),
            state.lines@.len() >= MAX_LINES || state.lines@ == all,
        decreases state.lines@.len(),
    {
        let _ = state.lines.pop_front();
        assert(state.lines@ == all.skip(all.len() - state.lines@.len()));
    }
    assert(state.lines@ == last_of(all, MAX_LINES as nat));
    assert(state@.lines == with_lines(old(state)@.lines, seq![line@]));
}

impl AppState {
    /// What the terminal shows before anything has come.
    pub fn new(video_title: &str, channel: &str) -> (r: AppState)
        ensures
            r@ == opening(video_title@, channel@),
    {
        let mut title = "▶  ".to_string();
        title.append(video_title);
        title.append("  ·  ");
        title.append(channel);
        let r = AppState {
            title,
            status: "Connecting…".to_string(),
            input: String::new(),
            lines: VecDeque::new(),
        };
        assert(r@ == opening(video_title@, channel@));
        r
    }

    /// Shows a new status.
    pub fn on_status(&mut self, status: String)
        ensures
            final(self)@ == after_status(old(self)@, status@),
    {
        self.status = status;
    }

    /// Shows a batch of messages.
    pub fn on_batch(&mut self, batch: Vec<LiveChatMessage>)
        ensures
            final(self)@ == after_batch(old(self)@, batch@),
    {
        let ghost before = self@;
        let ghost shown = message_lines(batch@);
        let mut i: usize = 0;
        assert(shown.take(0) == Seq::<Seq<SpanView>>::empty());
        while i < batch.len()
            invariant
                i <= batch.len(),
                shown == message_lines(batch@),
                self@ == (AppView { lines: with_lines(before.lines, shown.take(i as int)), ..before }),
            decreases batch.len() - i,
        {
            push_line(self, format_message(&batch[i]));
            proof {
                law_lines_added(
                    before.lines,
                    shown.take(i as int),
                    seq![shown[i as int]],
                );
                assert(shown.take(i + 1) == shown.take(i as int).push(shown[i as int]));
            }
            i = i + 1;
        }
        assert(shown.take(i as int) == shown);
        if self.lines.len() == HISTORY_LINES {
            let mut line = Line { spans: Vec::new() };
            line.spans.push(
                Span {
                    text: "──────────────────  history loaded  ──────────────────".to_string(),
                    style: Style::colored(Color::DarkGray),
                },
            );
            assert(line@ == separator());
            push_line(self, line);
        }
    }

    /// Takes in a key.
    pub fn on_key(&mut self, key: &KeyEvent) -> (r: KeyAction)
        ensures
            final(self)@ == after_key(old(self)@, *key),
            r@ == action_of(old(self).input@, *key),
    {
        if should_quit(key) {
            return KeyAction::Quit;
        }
        match key.code {
            KeyCode::Enter => {
                let text = trim(self.input.as_str());
                self.input = String::new();
                if text.as_str().is_empty() {
                    KeyAction::Nothing
                } else {
                    KeyAction::Send(text)
                }
            },
            KeyCode::Backspace => {
                let _ = self.input.pop();
                KeyAction::Nothing
            },
            KeyCode::Char(c) => {
                if !key.control && !key.alt {
                    self.input.push(c);
                }
                KeyAction::Nothing
            },
            KeyCode::Other => KeyAction::Nothing,
        }
    }
}

/// Adding lines and then others comes to the same as adding all of them.
pub proof fn law_lines_added(
    lines: Seq<Seq<SpanView>>,
    more: Seq<Seq<SpanView>>,
    others: Seq<Seq<SpanView>>,
)
    ensures
        with_lines(with_lines(lines, more), others) == with_lines(lines, more + others),
{
    lemma_last_of_concat(lines + more, others, MAX_LINES as nat);
    assert(lines + more + others == lines + (more + others));
    if more.len() == 0 {
        assert(more + others == others);
    }
    if others.len() == 0 {
        assert(more + others == more);
    }
}

/// What can happen to what the terminal shows.
pub enum UiEvent {
    Status(Seq<char>),
    Batch(Seq<LiveChatMessage>),
    Key(KeyEvent),
}

/// What the terminal shows after one event.
pub open spec fn after_event(app: AppView, event: UiEvent) -> AppView {
    match event {
        UiEvent::Status(status) => after_status(app, status),
        UiEvent::Batch(batch) => after_batch(app, batch),
        UiEvent::Key(key) => after_key(app, key),
    }
}

/// What the terminal shows after a series of events.
pub open spec fn after_events(app: AppView, events: Seq<UiEvent>) -> AppView
    decreases events.len(),
{
    if events.len() == 0 {
        app
    } else {
        after_event(after_events(app, events.drop_last()), events.last())
    }
}

/// A character typed with no modifier held down.
pub open spec fn plain_key(c: char) -> KeyEvent {
    KeyEvent { code: KeyCode::Char(c), control: false, alt: false }
}

/// The keys that type a text.
pub open spec fn typing(text: Seq<char>) -> Seq<UiEvent> {
    Seq::new(text.len(), |i: int| UiEvent::Key(plain_key(text[i])))
}

/// The lines that an event adds: those of a batch, and the separator where it comes.
pub open spec fn lines_of(app: AppView, event: UiEvent) -> Seq<Seq<SpanView>> {
    match event {
        UiEvent::Batch(batch) => if with_lines(app.lines, message_lines(batch)).len()
            == HISTORY_LINES {
            message_lines(batch).push(separator())
        } else {
            message_lines(batch)
        },
        _ => Seq::empty(),
    }
}

/// All the lines that a series of events adds.
pub open spec fn all_lines_of(app: AppView, events: Seq<UiEvent>) -> Seq<Seq<SpanView>>
    decreases events.len(),
{
    if events.len() == 0 {
        Seq::empty()
    } else {
        let earlier = events.drop_last();
        all_lines_of(app, earlier) + lines_of(after_events(app, earlier), events.last())
    }
}

/// Whatever happens, the lines kept are the last of all that were ever added, as many as the
/// limit allows.
pub proof fn law_lines_kept(app: AppView, events: Seq<UiEvent>)
    requires
        app.lines.len() <= MAX_LINES,
    ensures
        after_events(app, events).lines == last_of(
            app.lines + all_lines_of(app, events),
            MAX_LINES as nat,
        ),
    decreases events.len(),
{
    if events.len() == 0 {
        assert(app.lines + all_lines_of(app, events) == app.lines);
    } else {
        let earlier = events.drop_last();
        let before = after_events(app, earlier);
        let added = all_lines_of(app, earlier);
        let more = lines_of(before, events.last());
        law_lines_kept(app, earlier);
        if let UiEvent::Batch(batch) = events.last() {
            let shown = message_lines(batch);
            law_lines_added(before.lines, shown, seq![separator()]);
            assert(shown + seq![separator()] == shown.push(separator()));
        }
        assert(after_events(app, events).lines == with_lines(before.lines, more));
        lemma_last_of_concat(app.lines + added, more, MAX_LINES as nat);
        assert(app.lines + added + more == app.lines + (added + more));
        if more.len() == 0 {
            assert(added + more == added);
        }
    }
}

/// Whatever happens, no more lines than the limit are kept.
pub proof fn law_lines_bounded(app: AppView, events: Seq<UiEvent>)
    requires
        app.lines.len() <= MAX_LINES,
    ensures
        after_events(app, events).lines.len() <= MAX_LINES,
{
    law_lines_kept(app, events);
}

/// Whatever happens, the title stays.
pub proof fn law_title_stays(app: AppView, events: Seq<UiEvent>)
    ensures
        after_events(app, events).title == app.title,
    decreases events.len(),
{
    if events.len() > 0 {
        law_title_stays(app, events.drop_last());
    }
}

/// A key changes nothing but the input line; a batch of messages nothing but the chat; a status
/// nothing but the status.
pub proof fn law_events_keep_apart(
    app: AppView,
    key: KeyEvent,
    batch: Seq<LiveChatMessage>,
    status: Seq<char>,
)
    ensures
        after_key(app, key) == (AppView { input: after_key(app, key).input, ..app }),
        after_batch(app, batch) == (AppView { lines: after_batch(app, batch).lines, ..app }),
        after_status(app, status) == (AppView { status, ..app }),
        quits(key) ==> after_key(app, key) == app,
{
}

/// Typing a text adds it to the input line.
pub proof fn law_typing(app: AppView, text: Seq<char>)
    ensures
        after_events(app, typing(text)) == (AppView { input: app.input + text, ..app }),
    decreases text.len(),
{
    if text.len() > 0 {
        law_typing(app, text.drop_last());
        assert(typing(text).drop_last() == typing(text.drop_last()));
        assert(app.input + text == (app.input + text.drop_last()).push(text.last()));
    } else {
        assert(app.input + text == app.input);
    }
}

/// A message typed on an empty input line and submitted is sent without the white space at its
/// ends, if it has more than that, and the line is empty again.
pub proof fn law_submit(app: AppView, text: Seq<char>, control: bool, alt: bool)
    requires
        app.input.len() == 0,
    ensures
        ({
            let typed = after_events(app, typing(text));
            let enter = KeyEvent { code: KeyCode::Enter, control, alt };
            &&& action_of(typed.input, enter) == if trimmed(text).len() > 0 {
                ActionView::Send(trimmed(text))
            } else {
                ActionView::Nothing
            }
            &&& after_key(typed, enter) == app
        }),
{
    law_typing(app, text);
    assert(app.input + text == text);
    assert(app.input == Seq::<char>::empty());
}

/// Only Enter sends, and what is sent is not empty and has no white space at either end.
pub proof fn law_sent_text(input: Seq<char>, key: KeyEvent)
    ensures
        action_of(input, key) matches ActionView::Send(text) ==> {
            &&& key.code == KeyCode::Enter
            &&& text.len() > 0
            &&& !white_space(text.first())
            &&& !white_space(text.last())
        },
{
    law_trimmed(input);
}

/// Backspace takes back the character typed before it.
pub proof fn law_backspace(app: AppView, c: char, control: bool, alt: bool)
    ensures
        ({
            let typed = after_key(app, plain_key(c));
            after_key(typed, KeyEvent { code: KeyCode::Backspace, control, alt }) == app
        }),
{
    assert(app.input.push(c).drop_last() == app.input);
}

/// Of the first page, an empty screen comes to show exactly the messages that count as history,
/// followed by the separator if the page has at least as many.
pub proof fn law_history(items: Seq<LiveChatMessage>)
    ensures
        ({
            let shown = last_of(items, HISTORY_LINES as nat);
            lines_after(Seq::empty(), shown) == if items.len() >= HISTORY_LINES {
                message_lines(shown).push(separator())
            } else {
                message_lines(items)
            }
        }),
{
    let shown = last_of(items, HISTORY_LINES as nat);
    let lines = message_lines(shown);
    assert(Seq::<Seq<SpanView>>::empty() + lines == lines);
    assert(lines + seq![separator()] == lines.push(separator()));
    if items.len() == 0 {
        assert(message_lines(items) == Seq::<Seq<SpanView>>::empty());
    }
}

/// The screen opens with the video and the channel in the title, and with nothing typed or shown.
pub proof fn law_opening(app: AppState, video_title: Seq<char>, channel: Seq<char>)
    requires
        app@ == opening(video_title, channel),
    ensures
        app.title@ == "▶  "@ + video_title + "  ·  "@ + channel,
        app.status@ == "Connecting…"@,
        app.input@.len() == 0,
        app.lines@.len() == 0,
{
    assert(views(app.lines@).len() == 0);
}

/// Exactly Ctrl+C and Ctrl+Q leave, whatever is typed; exactly Enter sends, and only if something
/// other than white space is typed; and what is sent is what is typed between the white space at
/// its ends.
pub proof fn law_key_action(
    front: Seq<char>,
    body: Seq<char>,
    back: Seq<char>,
    key: KeyEvent,
    action: KeyAction,
)
    requires
        is_gap(front),
        is_gap(back),
        body.len() > 0 ==> !white_space(body.first()) && !white_space(body.last()),
        action@ == action_of(front + body + back, key),
    ensures
        action is Quit <==> key.control && (key.code == KeyCode::Char('c') || key.code
            == KeyCode::Char('q')),
        action is Send <==> key.code == KeyCode::Enter && body.len() > 0,
        action matches KeyAction::Send(text) ==> text@ == body,
{
    law_trim_between(front, body, back);
}

/// A key changes the input alone. A character typed with neither Ctrl nor Alt is added at its end,
/// Backspace takes the last one off, Enter empties it, and any other key leaves it as it is.
pub proof fn law_key_input(before: AppState, key: KeyEvent, after_it: AppState)
    requires
        after_it@ == after_key(before@, key),
    ensures
        after_it.title@ == before.title@,
        after_it.status@ == before.status@,
        after_it.lines@.len() == before.lines@.len(),
        forall|i: int|
            0 <= i < before.lines@.len() ==> (#[trigger] after_it.lines@[i])@ == before.lines@[i]@,
        match key.code {
            KeyCode::Enter => after_it.input@.len() == 0,
            KeyCode::Backspace => {
                &&& before.input@.len() == 0 ==> after_it.input@.len() == 0
                &&& before.input@.len() > 0 ==> after_it.input@.push(before.input@.last())
                    == before.input@
            },
            KeyCode::Char(c) => if key.control || key.alt {
                after_it.input@ == before.input@
            } else {
                after_it.input@ == before.input@ + seq![c]
            },
            KeyCode::Other => after_it.input@ == before.input@,
        },
{
    lemma_same_lines(before.lines@, after_it.lines@);
    if before.input@.len() > 0 {
        assert(before.input@.drop_last().push(before.input@.last()) == before.input@);
    }
}

proof fn lemma_same_lines(a: Seq<Line>, b: Seq<Line>)
    requires
        views(a) == views(b),
    ensures
        a.len() == b.len(),
        forall|i: int| 0 <= i < a.len() ==> (#[trigger] b[i])@ == a[i]@,
{
    assert(views(a).len() == a.len());
    assert(views(b).len() == b.len());
    assert forall|i: int| 0 <= i < a.len() implies (#[trigger] b[i])@ == a[i]@ by {
        assert(views(a)[i] == a[i]@);
        assert(views(b)[i] == b[i]@);
    }
}

/// A status is shown as it comes, and nothing else changes.
pub proof fn law_status_shown(before: AppState, status: Seq<char>, after_it: AppState)
    requires
        after_it@ == after_status(before@, status),
    ensures
        after_it.status@ == status,
        after_it.title@ == before.title@,
        after_it.input@ == before.input@,
        after_it.lines@.len() == before.lines@.len(),
        forall|i: int|
            0 <= i < before.lines@.len() ==> (#[trigger] after_it.lines@[i])@ == before.lines@[i]@,
{
    lemma_same_lines(before.lines@, after_it.lines@);
}

/// A batch adds the line of each of its messages behind those that are there, in order, and the
/// separator behind them where there are then thirty; of all these the last thousand are kept.
/// Nothing else changes.
pub proof fn law_batch_shown(before: AppState, batch: Seq<LiveChatMessage>, after_it: AppState)
    requires
        after_it@ == after_batch(before@, batch),
        before.lines@.len() <= 1000,
    ensures
        ({
            let old_lines = before.lines@.len() as int;
            let total = old_lines + batch.len();
            let all = if total == 30 {
                31
            } else {
                total
            };
            let kept = if all < 1000 {
                all
            } else {
                1000
            };
            &&& after_it.lines@.len() == kept
            &&& forall|i: int|
                0 <= i < kept ==> ({
                    let at = all - kept + i;
                    let line = #[trigger] after_it.lines@[i];
                    if at < old_lines {
                        line@ == before.lines@[at]@
                    } else if at < total {
                        line@ == message_line(batch[at - old_lines])
                    } else {
                        &&& line.spans@.len() == 1
                        &&& line.spans@[0].text@
                            == "──────────────────  history loaded  ──────────────────"@
                        &&& line.spans@[0].style == (Style {
                            fg: Some(Color::DarkGray),
                            bold: false,
                        })
                    }
                })
        }),
        after_it.title@ == before.title@,
        after_it.status@ == before.status@,
        after_it.input@ == before.input@,
{
    let was = views(before.lines@);
    let shown = message_lines(batch);
    let is = views(after_it.lines@);
    assert(is.len() == after_it.lines@.len());
    assert(was.len() == before.lines@.len());
    assert(shown.len() == batch.len());
    assert(is == lines_after(was, batch));
    law_last_of(was + shown, MAX_LINES as nat);
    let old_lines = was.len() as int;
    let total = old_lines + batch.len();
    let all = if total == 30 {
        31
    } else {
        total
    };
    let kept = if all < 1000 {
        all
    } else {
        1000
    };
    if shown.len() == 0 {
        assert(was + shown == was);
    }
    if total == 30 {
        assert(with_lines(was, shown) == was + shown);
        assert(is == was + shown + seq![separator()]);
    } else {
        assert(is == last_of(was + shown, MAX_LINES as nat));
    }
    assert forall|i: int| 0 <= i < kept implies ({
        let at = all - kept + i;
        let line = #[trigger] after_it.lines@[i];
        if at < old_lines {
            line@ == before.lines@[at]@
        } else if at < total {
            line@ == message_line(batch[at - old_lines])
        } else {
            &&& line.spans@.len() == 1
            &&& line.spans@[0].text@ == "──────────────────  history loaded  ──────────────────"@
            &&& line.spans@[0].style == (Style { fg: Some(Color::DarkGray), bold: false })
        }
    }) by {
        let at = all - kept + i;
        let line = after_it.lines@[i];
        assert(is[i] == line@);
        if at < old_lines {
            assert(is[i] == was[at]);
            assert(was[at] == before.lines@[at]@);
        } else if at < total {
            assert(is[i] == shown[at - old_lines]);
        } else {
            assert(is[i] == separator());
            assert(line@.len() == line.spans@.len());
            assert(line@[0] == line.spans@[0]@);
        }
    }
}

} // verus!
