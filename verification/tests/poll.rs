use terminal_tube::oauth::StoredToken;
use terminal_tube::poll::Poller;
use terminal_tube::youtube::{
    LiveChatAuthorDetails, LiveChatListResponse, LiveChatMessage, LiveChatSnippet, YouTube,
};

fn message(text: &str) -> LiveChatMessage {
    LiveChatMessage {
        snippet: LiveChatSnippet {
            display_message: Some(text.to_string()),
            message_type: None,
            super_chat_details: None,
        },
        author_details: LiveChatAuthorDetails {
            display_name: None,
            is_chat_owner: None,
            is_verified: None,
            is_chat_moderator: None,
            is_chat_sponsor: None,
        },
    }
}

fn page(count: usize, next: Option<&str>, interval: Option<u64>) -> LiveChatListResponse {
    LiveChatListResponse {
        next_page_token: next.map(|t| t.to_string()),
        polling_interval_millis: interval,
        items: (0..count).map(|i| message(&format!("m{i}"))).collect(),
    }
}

fn texts(items: &[LiveChatMessage]) -> Vec<String> {
    items.iter().map(|m| m.snippet.display_message.clone().unwrap()).collect()
}

#[test]
fn poller_starts_fresh() {
    let p = Poller::new();
    assert!(p.is_first);
    assert_eq!(p.page_token, None);
    assert_eq!(p.backoff_ms, 10000);
}

#[test]
fn first_page_keeps_the_last_thirty() {
    let mut p = Poller::new();
    let r = p.on_page(page(200, Some("next"), Some(2500)));
    assert_eq!(r.items.len(), 30);
    assert_eq!(texts(&r.items)[0], "m170");
    assert_eq!(texts(&r.items)[29], "m199");
    assert_eq!(r.status, "Connected · next poll in 2s · Ctrl+C to quit");
    assert_eq!(r.pause_ms, 2500);
    assert!(!p.is_first);
    assert_eq!(p.page_token.as_deref(), Some("next"));
}

#[test]
fn short_first_page_is_kept_whole() {
    for n in [0usize, 1, 29, 30] {
        let mut p = Poller::new();
        assert_eq!(p.on_page(page(n, None, None)).items.len(), n);
    }
    let mut p = Poller::new();
    assert_eq!(p.on_page(page(31, None, None)).items.len(), 30);
}

#[test]
fn later_pages_are_kept_whole() {
    let mut p = Poller::new();
    p.on_page(page(5, Some("a"), None));
    let r = p.on_page(page(200, Some("b"), None));
    assert_eq!(r.items.len(), 200);
    assert_eq!(texts(&r.items)[0], "m0");
    assert_eq!(p.page_token.as_deref(), Some("b"));
}

#[test]
fn missing_interval_falls_back() {
    let mut p = Poller::new();
    let r = p.on_page(page(0, None, None));
    assert_eq!(r.pause_ms, 5000);
    assert_eq!(r.status, "Connected · next poll in 5s · Ctrl+C to quit");
    assert_eq!(p.page_token, None);
}

#[test]
fn longest_interval_is_taken_as_it_is() {
    let mut p = Poller::new();
    let r = p.on_page(page(0, None, Some(u64::MAX)));
    assert_eq!(r.pause_ms, u64::MAX);
    assert_eq!(r.status, "Connected · next poll in 18446744073709551s · Ctrl+C to quit");
}

#[test]
fn failures_double_the_pause_up_to_a_minute() {
    let mut p = Poller::new();
    let mut pauses = Vec::new();
    for _ in 0..6 {
        pauses.push(p.on_failure("x").pause_ms);
    }
    assert_eq!(pauses, vec![10000, 20000, 40000, 60000, 60000, 60000]);
    assert!(p.is_first);
}

#[test]
fn failure_status_names_the_reason() {
    let mut p = Poller::new();
    let r = p.on_failure("liveChatMessages.list request");
    assert_eq!(r.status, "API error — retrying in 10s… (liveChatMessages.list request)");
}

#[test]
fn a_page_ends_a_run_of_failures() {
    let mut p = Poller::new();
    p.on_page(page(1, Some("a"), None));
    p.on_failure("x");
    p.on_failure("x");
    assert_eq!(p.backoff_ms, 40000);
    assert_eq!(p.page_token.as_deref(), Some("a"));
    p.on_page(page(1, None, None));
    assert_eq!(p.backoff_ms, 10000);
    assert_eq!(p.page_token, None);
}

#[test]
fn a_failure_before_the_first_page_leaves_it_the_first() {
    let mut p = Poller::new();
    p.on_failure("x");
    assert_eq!(p.on_page(page(40, None, None)).items.len(), 30);
}

#[test]
fn pages_are_asked_for_in_turn() {
    let yt = YouTube::new(StoredToken {
        access_token: "t".to_string(),
        refresh_token: None,
        expires_at_utc: None,
    });
    let asked = |p: &Poller| {
        let request = yt.list_messages("chat", p.page_token.as_deref()).unwrap();
        request.query.into_iter().find(|(k, _)| k == "pageToken").map(|(_, v)| v)
    };
    let mut p = Poller::new();
    assert_eq!(asked(&p), None);
    p.on_failure("x");
    assert_eq!(asked(&p), None);
    p.on_page(page(1, Some("a"), None));
    assert_eq!(asked(&p).as_deref(), Some("a"));
    p.on_failure("x");
    assert_eq!(asked(&p).as_deref(), Some("a"));
    p.on_page(page(1, Some("b"), None));
    assert_eq!(asked(&p).as_deref(), Some("b"));
}
