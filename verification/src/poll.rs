//! When live chat is asked for messages, and what is made of each answer.
use vstd::arithmetic::power2::{lemma2_to64, lemma_pow2_unfold, pow2};
use vstd::prelude::*;

use crate::tail::{last_of, law_last_of};
use crate::text::{decimal, decimal_text, law_decimal, number, text_of};
use crate::youtube::{LiveChatListResponse, LiveChatMessage};

verus! {

/// How many messages of the first page are shown.
pub const HISTORY_LINES: usize = 30;

/// The pause after a page that names none, in milliseconds.
pub const FALLBACK_POLL_MS: u64 = 5000;

/// The pause after a first failure, in milliseconds.
pub const FIRST_BACKOFF_MS: u64 = 10000;

/// The longest pause after a failure, in milliseconds.
pub const MAX_BACKOFF_MS: u64 = 60000;

/// Where polling stands: the page to ask for, whether a page has come yet, and the pause that
/// the next failure brings.
#[derive(Debug)]
pub struct Poller {
    pub page_token: Option<String>,
    pub is_first: bool,
    pub backoff_ms: u64,
}

/// The state of a poller.
pub struct PollerView {
    pub page_token: Option<Seq<char>>,
    pub is_first: bool,
    pub backoff_ms: int,
}

/// What can come of asking for a page.
pub enum PollEvent {
    Page { next_page_token: Option<Seq<char>> },
    Failure,
}

/// What to do with a page: show some of its messages, show a status, then pause.
#[derive(Debug)]
pub struct PollUpdate {
    pub items: Vec<LiveChatMessage>,
    pub status: String,
    pub pause_ms: u64,
}

/// What to do about a failure: show a status, then pause.
#[derive(Debug)]
pub struct PollRetry {
    pub status: String,
    pub pause_ms: u64,
}

impl View for Poller {
    type V = PollerView;

    open spec fn view(&self) -> PollerView {
        PollerView {
            page_token: text_of(self.page_token),
            is_first: self.is_first,
            backoff_ms: self.backoff_ms as int,
        }
    }
}

/// A poller before its first request.
pub open spec fn start() -> PollerView {
    PollerView { page_token: None, is_first: true, backoff_ms: FIRST_BACKOFF_MS as int }
}

/// A page sets the next page and ends the run of failures; a failure doubles the pause, up to
/// the longest.
pub open spec fn after(state: PollerView, event: PollEvent) -> PollerView {
    match event {
        PollEvent::Page { next_page_token } => PollerView {
            page_token: next_page_token,
            is_first: false,
            backoff_ms: FIRST_BACKOFF_MS as int,
        },
        PollEvent::Failure => PollerView {
            backoff_ms: if 2 * state.backoff_ms < MAX_BACKOFF_MS {
                2 * state.backoff_ms
            } else {
                MAX_BACKOFF_MS as int
            },
            ..state
        },
    }
}

/// The pause after a page.
pub open spec fn pause_after(page: LiveChatListResponse) -> u64 {
    match page.polling_interval_millis {
        Some(ms) => ms,
        None => FALLBACK_POLL_MS,
    }
}

/// The status after a page.
pub open spec fn connected_status(pause_ms: nat) -> Seq<char> {
    "Connected · next poll in "@ + decimal(pause_ms / 1000) + "s · Ctrl+C to quit"@
}

/// The status after a failure.
pub open spec fn retry_status(pause_ms: nat, reason: Seq<char>) -> Seq<char> {
    "API error — retrying in "@ + decimal(pause_ms / 1000) + "s… ("@ + reason + ")"@
}

/// What is shown of a page: of the first one its end, of any other all.
pub open spec fn shown_of(page: LiveChatListResponse, is_first: bool) -> Seq<LiveChatMessage> {
    if is_first {
        last_of(page.items@, HISTORY_LINES as nat)
    } else {
        page.items@
    }
}

/// Whether a page is taken in and an update follows from it.
pub open spec fn takes_page(
    before: Poller,
    page: LiveChatListResponse,
    after_page: Poller,
    update: PollUpdate,
) -> bool {
    &&& after_page@ == after(
        before@,
        PollEvent::Page { next_page_token: text_of(page.next_page_token) },
    )
    &&& update.items@ == shown_of(page, before.is_first)
    &&& update.status@ == connected_status(pause_after(page) as nat)
    &&& update.pause_ms == pause_after(page)
}

/// Whether a failure is taken in and another try follows from it.
pub open spec fn takes_failure(
    before: Poller,
    reason: Seq<char>,
    after_failure: Poller,
    retry: PollRetry,
) -> bool {
    &&& after_failure@ == after(before@, PollEvent::Failure)
    &&& retry.status@ == retry_status(before.backoff_ms as nat, reason)
    &&& retry.pause_ms == before.backoff_ms
}

impl Poller {
    /// A poller that has not asked yet.
    pub fn new() -> (r: Poller)
        ensures
            r@ == start(),
    {
        Poller { page_token: None, is_first: true, backoff_ms: FIRST_BACKOFF_MS }
    }

    /// Takes in a page. Only the end of the first one is shown; of the others, all.
    pub fn on_page(&mut self, page: LiveChatListResponse) -> (r: PollUpdate)
        ensures
            takes_page(*old(self), page, *final(self), r),
            final(self)@ == after(
                old(self)@,
                PollEvent::Page { next_page_token: text_of(page.next_page_token) },
            ),
            r.items@ == if old(self).is_first {
                last_of(page.items@, HISTORY_LINES as nat)
            } else {
                page.items@
            },
            r.status@ == connected_status(pause_after(page) as nat),
            r.pause_ms == pause_after(page),
            page.polling_interval_millis matches Some(ms) ==> r.pause_ms == ms,
            page.polling_interval_millis is None ==> r.pause_ms == 5000,
            final(self).page_token == page.next_page_token,
    {
        let pause_ms: u64 = match page.polling_interval_millis {
            Some(ms) => ms,
            None => FALLBACK_POLL_MS,
        };
        let mut all = page.items;
        let n: usize = all.len();
        let items = if self.is_first && n > HISTORY_LINES {
            all.split_off(n - HISTORY_LINES)
        } else {
            all
        };
        self.page_token = page.next_page_token;
        self.is_first = false;
        self.backoff_ms = FIRST_BACKOFF_MS;

        let mut status = "Connected · next poll in ".to_string();
        status.append(decimal_text(pause_ms / 1000).as_str());
        status.append("s · Ctrl+C to quit");
        PollUpdate { items, status, pause_ms }
    }

    /// Takes in a failure and its reason.
    pub fn on_failure(&mut self, reason: &str) -> (r: PollRetry)
        ensures
            takes_failure(*old(self), reason@, *final(self), r),
            final(self)@ == after(old(self)@, PollEvent::Failure),
            r.status@ == retry_status(old(self).backoff_ms as nat, reason@),
            r.pause_ms == old(self).backoff_ms,
    {
        let pause_ms: u64 = self.backoff_ms;
        let mut status = "API error — retrying in ".to_string();
        status.append(decimal_text(pause_ms / 1000).as_str());
        status.append("s… (");
        status.append(reason);
        status.append(")");
        self.backoff_ms = if pause_ms < MAX_BACKOFF_MS / 2 {
            2 * pause_ms
        } else {
            MAX_BACKOFF_MS
        };
        PollRetry { status, pause_ms }
    }
}

/// The state after a series of events.
pub open spec fn after_all(state: PollerView, events: Seq<PollEvent>) -> PollerView
    decreases events.len(),
{
    if events.len() == 0 {
        state
    } else {
        after(after_all(state, events.drop_last()), events.last())
    }
}

/// Whether any of a series of events is a page.
pub open spec fn has_page(events: Seq<PollEvent>) -> bool {
    exists|i: int| 0 <= i < events.len() && #[trigger] events[i] is Page
}

/// Whatever happens, the pause that a failure brings lies between the first and the longest.
pub proof fn law_backoff_in_bounds(events: Seq<PollEvent>)
    ensures
        FIRST_BACKOFF_MS <= after_all(start(), events).backoff_ms <= MAX_BACKOFF_MS,
    decreases events.len(),
{
    if events.len() > 0 {
        law_backoff_in_bounds(events.drop_last());
    }
}

/// The pause that a failure brings after so many failures in a row.
pub open spec fn doubled(failures: nat) -> int {
    let pause = FIRST_BACKOFF_MS * pow2(failures);
    if pause < MAX_BACKOFF_MS {
        pause
    } else {
        MAX_BACKOFF_MS as int
    }
}

proof fn lemma_backoff_doubles(state: PollerView, failures: Seq<PollEvent>)
    requires
        state.backoff_ms == FIRST_BACKOFF_MS,
        forall|i: int| 0 <= i < failures.len() ==> #[trigger] failures[i] is Failure,
    ensures
        after_all(state, failures).backoff_ms == doubled(failures.len()),
    decreases failures.len(),
{
    let n = failures.len();
    lemma2_to64();
    if n > 0 {
        let fewer = failures.drop_last();
        assert forall|i: int| 0 <= i < fewer.len() implies #[trigger] fewer[i] is Failure by {
            assert(fewer[i] == failures[i]);
        }
        lemma_backoff_doubles(state, fewer);
        lemma_pow2_unfold(n);
        assert(failures.last() is Failure);
    }
}

/// The pause doubles with each failure since the start, or since the last page, up to the
/// longest.
pub proof fn law_backoff_doubles(
    state: PollerView,
    next_page_token: Option<Seq<char>>,
    failures: Seq<PollEvent>,
)
    requires
        forall|i: int| 0 <= i < failures.len() ==> #[trigger] failures[i] is Failure,
    ensures
        after_all(start(), failures).backoff_ms == doubled(failures.len()),
        after_all(after(state, PollEvent::Page { next_page_token }), failures).backoff_ms
            == doubled(failures.len()),
{
    lemma_backoff_doubles(start(), failures);
    lemma_backoff_doubles(after(state, PollEvent::Page { next_page_token }), failures);
}

/// The page asked for next is the one that the last page named; failures do not change it.
pub proof fn law_next_page(before: Seq<PollEvent>, next: Option<Seq<char>>, failures: Seq<PollEvent>)
    requires
        forall|i: int| 0 <= i < failures.len() ==> #[trigger] failures[i] is Failure,
    ensures
        after_all(
            start(),
            before.push(PollEvent::Page { next_page_token: next }) + failures,
        ).page_token == next,
    decreases failures.len(),
{
    let events = before.push(PollEvent::Page { next_page_token: next }) + failures;
    if failures.len() > 0 {
        let fewer = failures.drop_last();
        assert forall|i: int| 0 <= i < fewer.len() implies #[trigger] fewer[i] is Failure by {
            assert(fewer[i] == failures[i]);
        }
        law_next_page(before, next, fewer);
        assert(events.drop_last() == before.push(PollEvent::Page { next_page_token: next }) + fewer);
        assert(events.last() == failures.last());
    } else {
        assert(events == before.push(PollEvent::Page { next_page_token: next }));
    }
}

/// Until a page has come, and only until then, the next one counts as the first, and no page is
/// asked for by name.
pub proof fn law_first_page(events: Seq<PollEvent>)
    ensures
        after_all(start(), events).is_first <==> !has_page(events),
        !has_page(events) ==> after_all(start(), events).page_token is None,
    decreases events.len(),
{
    if events.len() > 0 {
        let fewer = events.drop_last();
        law_first_page(fewer);
        assert forall|i: int| 0 <= i < fewer.len() implies fewer[i] == events[i] by {}
        if has_page(fewer) {
            let i = choose|i: int| 0 <= i < fewer.len() && #[trigger] fewer[i] is Page;
            assert(events[i] is Page);
        }
        if events.last() is Page {
            assert(events[events.len() - 1] is Page);
        } else if has_page(events) {
            let i = choose|i: int| 0 <= i < events.len() && #[trigger] events[i] is Page;
            assert(fewer[i] is Page);
        }
    }
}

/// The next page is asked for after exactly the pause that the page names, or after five seconds
/// where it names none, and the status names the whole seconds of that pause.
pub proof fn law_pause(
    before: Poller,
    page: LiveChatListResponse,
    after_page: Poller,
    update: PollUpdate,
)
    requires
        takes_page(before, page, after_page, update),
    ensures
        page.polling_interval_millis matches Some(ms) ==> update.pause_ms == ms,
        page.polling_interval_millis is None ==> update.pause_ms == 5000,
        exists|digits: Seq<char>|
            {
                &&& update.status@ == "Connected · next poll in "@ + digits
                    + "s · Ctrl+C to quit"@
                &&& #[trigger] number(digits) == update.pause_ms / 1000
                &&& digits.len() > 1 ==> digits[0] != '0'
            },
{
    let digits = decimal(update.pause_ms as nat / 1000);
    law_decimal(update.pause_ms as nat / 1000);
    assert(number(digits) == update.pause_ms / 1000);
}

/// Taking in a page leaves the token that it names, ends the run of failures, and makes all later
/// pages no first ones. A first page gives no more than its last thirty messages, any other all of
/// them, and always in their order and none left out at the end.
pub proof fn law_page_taken(
    before: Poller,
    page: LiveChatListResponse,
    after_page: Poller,
    update: PollUpdate,
)
    requires
        takes_page(before, page, after_page, update),
    ensures
        match page.next_page_token {
            Some(t) => after_page.page_token matches Some(next) && next@ == t@,
            None => after_page.page_token is None,
        },
        !after_page.is_first,
        after_page.backoff_ms == 10000,
        update.items@.len() == if before.is_first && page.items@.len() > 30 {
            30
        } else {
            page.items@.len()
        },
        forall|i: int|
            0 <= i < update.items@.len() ==> #[trigger] update.items@[i]
                == page.items@[page.items@.len() - update.items@.len() + i],
{
    law_last_of(page.items@, HISTORY_LINES as nat);
}

/// Taking in a failure pauses for the time that was due, names its whole seconds and the reason,
/// doubles the time for the next failure up to a minute, and changes nothing else.
pub proof fn law_failure_taken(
    before: Poller,
    reason: Seq<char>,
    after_failure: Poller,
    retry: PollRetry,
)
    requires
        takes_failure(before, reason, after_failure, retry),
    ensures
        retry.pause_ms == before.backoff_ms,
        after_failure.backoff_ms == if before.backoff_ms < 30000 {
            before.backoff_ms + before.backoff_ms
        } else {
            60000
        },
        after_failure.is_first == before.is_first,
        match before.page_token {
            Some(t) => after_failure.page_token matches Some(next) && next@ == t@,
            None => after_failure.page_token is None,
        },
        exists|digits: Seq<char>|
            {
                &&& retry.status@ == "API error — retrying in "@ + digits + "s… ("@ + reason + ")"@
                &&& #[trigger] number(digits) == before.backoff_ms / 1000
                &&& digits.len() > 1 ==> digits[0] != '0'
            },
{
    let digits = decimal(before.backoff_ms as nat / 1000);
    law_decimal(before.backoff_ms as nat / 1000);
    assert(number(digits) == before.backoff_ms / 1000);
}

/// A poller that has not asked yet asks for no page by name, waits for its first page, and would
/// pause for ten seconds after a failure.
pub proof fn law_fresh_poller(poller: Poller)
    requires
        poller@ == start(),
    ensures
        poller.page_token is None,
        poller.is_first,
        poller.backoff_ms == 10000,
{
}

} // verus!
