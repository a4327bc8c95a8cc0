use terminal_tube::oauth::StoredToken;
use terminal_tube::youtube::{
    is_success, json_or_error, live_chat_of, reply_of, ApiCall, ApiError, ApiMethod, ApiReply,
    LiveStreamingDetails, VideoItem, VideoSnippet, VideosListResponse, YouTube,
};

fn youtube(token: &str) -> YouTube {
    YouTube::new(StoredToken {
        access_token: token.to_string(),
        refresh_token: None,
        expires_at_utc: None,
    })
}

fn pair(a: &str, b: &str) -> (String, String) {
    (a.to_string(), b.to_string())
}

fn video(chat: Option<Option<&str>>) -> VideoItem {
    VideoItem {
        snippet: VideoSnippet { title: "Launch".to_string(), channel_title: "Space".to_string() },
        live_streaming_details: chat.map(|c| LiveStreamingDetails {
            active_live_chat_id: c.map(|id| id.to_string()),
        }),
    }
}

#[test]
fn every_call_carries_the_token() {
    let yt = youtube("ya29.x");
    assert_eq!(yt.auth_headers().unwrap(), b"Bearer ya29.x");
    assert_eq!(yt.get_live_chat_id("v").unwrap().authorization, b"Bearer ya29.x");
    assert_eq!(yt.list_messages("c", None).unwrap().authorization, b"Bearer ya29.x");
    assert_eq!(yt.send_message("c", "t").unwrap().authorization, b"Bearer ya29.x");
}

#[test]
fn header_characters() {
    for c in (0u32..300).chain([0x2028, 0x1f600]).filter_map(char::from_u32) {
        let allowed = c == '\t' || (c >= ' ' && c != '\u{7f}');
        match youtube(&format!("a{c}b")).auth_headers() {
            Ok(value) => {
                assert!(allowed, "{c:?}");
                assert_eq!(value, format!("Bearer a{c}b").into_bytes());
            }
            Err(ApiError::Header) => assert!(!allowed, "{c:?}"),
            Err(e) => panic!("{e:?}"),
        }
    }
}

#[test]
fn a_token_that_cannot_be_sent() {
    let yt = youtube("a\nb");
    assert!(matches!(yt.get_live_chat_id("v"), Err(ApiError::Header)));
    assert!(matches!(yt.list_messages("c", None), Err(ApiError::Header)));
    assert!(matches!(yt.send_message("c", "t"), Err(ApiError::Header)));
    assert_eq!(ApiError::Header.message(), "build Authorization header");
}

#[test]
fn the_request_for_a_video() {
    let r = youtube("t").get_live_chat_id("dQw4w9WgXcQ").unwrap();
    assert_eq!(r.method, ApiMethod::Get);
    assert_eq!(r.url, "https://www.googleapis.com/youtube/v3/videos");
    assert_eq!(
        r.query,
        vec![pair("part", "liveStreamingDetails,snippet"), pair("id", "dQw4w9WgXcQ")]
    );
    assert!(r.body.is_none());
}

#[test]
fn the_request_for_messages() {
    let r = youtube("t").list_messages("chat", None).unwrap();
    assert_eq!(r.method, ApiMethod::Get);
    assert_eq!(r.url, "https://www.googleapis.com/youtube/v3/liveChat/messages");
    let mut query = vec![
        pair("liveChatId", "chat"),
        pair("part", "snippet,authorDetails"),
        pair("maxResults", "200"),
    ];
    assert_eq!(r.query, query);
    assert!(r.body.is_none());
    query.push(pair("pageToken", "p2"));
    assert_eq!(youtube("t").list_messages("chat", Some("p2")).unwrap().query, query);
}

#[test]
fn the_request_that_sends() {
    let r = youtube("t").send_message("chat", "hi there").unwrap();
    assert_eq!(r.method, ApiMethod::Post);
    assert_eq!(r.url, "https://www.googleapis.com/youtube/v3/liveChat/messages?part=snippet");
    assert_eq!(r.query, vec![]);
    let snippet = r.body.unwrap().snippet;
    assert_eq!(snippet.live_chat_id, "chat");
    assert_eq!(snippet.kind_type, "textMessageEvent");
    assert_eq!(snippet.text_message_details.message_text, "hi there");
}

#[test]
fn statuses_that_succeed() {
    for status in 100u16..1000 {
        let expected = reqwest::StatusCode::from_u16(status).unwrap().is_success();
        assert_eq!(is_success(status), expected);
    }
}

#[test]
fn replies() {
    assert_eq!(json_or_error(ApiReply::Json(5), ApiCall::VideosList).unwrap(), 5);
    let fail = |reply: ApiReply<u8>, call: ApiCall| json_or_error(reply, call).unwrap_err();
    let e = fail(ApiReply::NotSent, ApiCall::VideosList);
    assert_eq!(e.message(), "videos.list request");
    let e = fail(ApiReply::BadJson, ApiCall::MessagesList);
    assert_eq!(e.message(), "parse liveChatMessages.list response json");
    let body = Some("quotaExceeded".to_string());
    let e = fail(ApiReply::Failure { status: 403, body }, ApiCall::MessagesInsert);
    assert_eq!(e.message(), "liveChatMessages.insert failed: HTTP 403 body: quotaExceeded");
    let e = fail(ApiReply::Failure { status: 500, body: None }, ApiCall::MessagesList);
    assert_eq!(
        e.message(),
        "liveChatMessages.list failed: HTTP 500 body: <failed to read response body>"
    );
}

#[test]
fn the_live_chat_of_the_first_video() {
    let items = vec![video(Some(Some("chat"))), video(None)];
    let (chat, title, channel) = live_chat_of(VideosListResponse { items }, "v").unwrap();
    assert_eq!((chat.as_str(), title.as_str(), channel.as_str()), ("chat", "Launch", "Space"));
}

#[test]
fn videos_without_a_live_chat() {
    let e = live_chat_of(VideosListResponse { items: vec![] }, "v123").unwrap_err();
    assert_eq!(e.message(), "Video not found: v123");
    for item in [video(None), video(Some(None))] {
        let items = vec![item, video(Some(Some("chat")))];
        let e = live_chat_of(VideosListResponse { items }, "v").unwrap_err();
        assert_eq!(e.message(), "No active live chat found. Is the stream live?");
    }
}

#[test]
fn only_a_success_counts_as_an_answer() {
    let text = || Some("text".to_string());
    for status in 100u16..1000 {
        let ok = (200..300).contains(&status);
        match reply_of(status, Some(7), text()) {
            ApiReply::Json(7) => assert!(ok),
            ApiReply::Failure { status: s, body } => {
                assert!(!ok);
                assert_eq!((s, body), (status, text()));
            }
            other => panic!("{other:?}"),
        }
    }
    assert!(matches!(reply_of::<u8>(204, None, text()), ApiReply::BadJson));
    assert!(matches!(
        reply_of::<u8>(404, None, None),
        ApiReply::Failure { status: 404, body: None }
    ));
}
