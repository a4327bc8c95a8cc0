//! What the YouTube Data API is asked and what it answers.
use vstd::prelude::*;
use vstd::utf8::encode_utf8;

use crate::oauth::StoredToken;
use crate::poll::{after_all, has_page, law_first_page, start, PollEvent};
use crate::text::{decimal, decimal_text, law_decimal, number};
use crate::web::{first_value, pair_texts, PairsView};

verus! {

/// Where videos are looked up.
pub const VIDEOS_URL: &'static str = "https://www.googleapis.com/youtube/v3/videos";

/// Where live chat messages are read.
pub const MESSAGES_URL: &'static str = "https://www.googleapis.com/youtube/v3/liveChat/messages";

/// Where live chat messages are sent.
pub const SEND_URL: &'static str =
    "https://www.googleapis.com/youtube/v3/liveChat/messages?part=snippet";

/// The YouTube Data API, as used with a token.
#[derive(Debug, Clone)]
pub struct YouTube {
    pub token: StoredToken,
}

/// The calls that are made.
#[derive(Debug, Clone, Copy, PartialEq, Eq, Structural)]
pub enum ApiCall {
    VideosList,
    MessagesList,
    MessagesInsert,
}

/// How a call is made.
#[derive(Debug, Clone, Copy, PartialEq, Eq, Structural)]
pub enum ApiMethod {
    Get,
    Post,
}

/// What to ask: the method, the URL, what is added to its query, the value of the header
/// `Authorization`, and the body.
#[derive(Debug)]
pub struct ApiRequest {
    pub method: ApiMethod,
    pub url: String,
    pub query: Vec<(String, String)>,
    pub authorization: Vec<u8>,
    pub body: Option<SendMessageRequest>,
}

/// A message to send.
#[derive(Debug)]
pub struct SendMessageRequest {
    pub snippet: SendMessageSnippet,
}

/// Where a message goes, and what kind it is of.
#[derive(Debug)]
pub struct SendMessageSnippet {
    pub live_chat_id: String,
    pub kind_type: String,
    pub text_message_details: TextMessageDetails,
}

/// What a message says.
#[derive(Debug)]
pub struct TextMessageDetails {
    pub message_text: String,
}

/// What came of a call. A body counts as JSON if it was read as what it should be.
#[derive(Debug)]
pub enum ApiReply<T> {
    NotSent,
    Json(T),
    BadJson,
    Failure { status: u16, body: Option<String> },
}

/// Why a call came to nothing.
#[derive(Debug)]
pub enum ApiError {
    Header,
    NotSent(ApiCall),
    BadJson(ApiCall),
    Http { call: ApiCall, status: u16, body: String },
    VideoNotFound { video_id: String },
    NoLiveChat,
}

/// The videos found.
#[derive(Debug)]
pub struct VideosListResponse {
    pub items: Vec<VideoItem>,
}

/// One video.
#[derive(Debug)]
pub struct VideoItem {
    pub snippet: VideoSnippet,
    pub live_streaming_details: Option<LiveStreamingDetails>,
}

/// What a video is called, and whose it is.
#[derive(Debug)]
pub struct VideoSnippet {
    pub title: String,
    pub channel_title: String,
}

/// What is known of a live stream.
#[derive(Debug)]
pub struct LiveStreamingDetails {
    pub active_live_chat_id: Option<String>,
}

/// One page of live chat messages.
#[derive(Debug, Clone)]
pub struct LiveChatListResponse {
    pub next_page_token: Option<String>,
    pub polling_interval_millis: Option<u64>,
    pub items: Vec<LiveChatMessage>,
}

/// One live chat message.
#[derive(Debug, Clone)]
pub struct LiveChatMessage {
    pub snippet: LiveChatSnippet,
    pub author_details: LiveChatAuthorDetails,
}

/// What a message says.
#[derive(Debug, Clone)]
pub struct LiveChatSnippet {
    pub display_message: Option<String>,
    pub message_type: Option<String>,
    pub super_chat_details: Option<SuperChatDetails>,
}

/// What was paid for a Super Chat.
#[derive(Debug, Clone)]
pub struct SuperChatDetails {
    pub amount_display_string: Option<String>,
}

/// Who wrote a message.
#[derive(Debug, Clone)]
pub struct LiveChatAuthorDetails {
    pub display_name: Option<String>,
    pub is_chat_owner: Option<bool>,
    pub is_verified: Option<bool>,
    pub is_chat_moderator: Option<bool>,
    pub is_chat_sponsor: Option<bool>,
}

/// The state of a request, in texts. The body is the live chat, the kind and the text of a
/// message.
pub struct ApiRequestView {
    pub method: ApiMethod,
    pub url: Seq<char>,
    pub query: PairsView,
    pub authorization: Seq<u8>,
    pub body: Option<(Seq<char>, Seq<char>, Seq<char>)>,
}

impl View for ApiRequest {
    type V = ApiRequestView;

    open spec fn view(&self) -> ApiRequestView {
        ApiRequestView {
            method: self.method,
            url: self.url@,
            query: pair_texts(self.query@),
            authorization: self.authorization@,
            body: match self.body {
                Some(body) => Some(
                    (
                        body.snippet.live_chat_id@,
                        body.snippet.kind_type@,
                        body.snippet.text_message_details.message_text@,
                    ),
                ),
                None => None,
            },
        }
    }
}

/// Whether a character may stand in the value of a header.
pub open spec fn is_header_char(c: char) -> bool {
    c == '\t' || (c >= ' ' && c != '\u{7f}')
}

/// Whether a text may be the value of a header.
pub open spec fn is_header_text(s: Seq<char>) -> bool {
    forall|i: int| 0 <= i < s.len() ==> is_header_char(#[trigger] s[i])
}

/// The type `reqwest::header::InvalidHeaderValue`: a text cannot be the value of a header.
#[verifier::external_type_specification]
#[verifier::external_body]
pub struct ExInvalidHeaderValue(reqwest::header::InvalidHeaderValue);

/// `HeaderValue::from_str`, then `HeaderValue::as_bytes`: the bytes of a text as the value of a
/// header, or an error where it holds a control character other than a tab.
#[verifier::external_body]
fn header_value(s: &str) -> (r: Result<Vec<u8>, reqwest::header::InvalidHeaderValue>)
    ensures
        r is Ok <==> is_header_text(s@),
        r matches Ok(value) ==> value@ == encode_utf8(s@),
{
    Ok(reqwest::header::HeaderValue::from_str(s)?.as_bytes().to_vec())
}

/// The value of the header `Authorization`.
pub open spec fn bearer(access_token: Seq<char>) -> Seq<char> {
    "Bearer "@ + access_token
}

/// The request for a video.
pub open spec fn video_request(access_token: Seq<char>, video_id: Seq<char>) -> ApiRequestView {
    ApiRequestView {
        method: ApiMethod::Get,
        url: VIDEOS_URL@,
        query: seq![("part"@, "liveStreamingDetails,snippet"@), ("id"@, video_id)],
        authorization: encode_utf8(bearer(access_token)),
        body: None,
    }
}

/// The request for a page of messages.
pub open spec fn page_request(
    access_token: Seq<char>,
    live_chat_id: Seq<char>,
    page_token: Option<Seq<char>>,
) -> ApiRequestView {
    ApiRequestView {
        method: ApiMethod::Get,
        url: MESSAGES_URL@,
        query: seq![
            ("liveChatId"@, live_chat_id),
            ("part"@, "snippet,authorDetails"@),
            ("maxResults"@, "200"@),
        ] + match page_token {
            Some(t) => seq![("pageToken"@, t)],
            None => seq![],
        },
        authorization: encode_utf8(bearer(access_token)),
        body: None,
    }
}

/// The request that sends a message.
pub open spec fn send_request(
    access_token: Seq<char>,
    live_chat_id: Seq<char>,
    text: Seq<char>,
) -> ApiRequestView {
    ApiRequestView {
        method: ApiMethod::Post,
        url: SEND_URL@,
        query: seq![],
        authorization: encode_utf8(bearer(access_token)),
        body: Some((live_chat_id, "textMessageEvent"@, text)),
    }
}

/// Whether a request is made exactly if the token can stand in a header.
pub open spec fn is_made(
    r: Result<ApiRequest, ApiError>,
    access_token: Seq<char>,
    request: ApiRequestView,
) -> bool {
    if is_header_text(bearer(access_token)) {
        r matches Ok(made) && made@ == request
    } else {
        r == Err::<ApiRequest, ApiError>(ApiError::Header)
    }
}

/// The API, used with a token.
pub open spec fn using(token: StoredToken) -> YouTube {
    YouTube { token }
}

/// Whether a header is made of a token exactly if it can be.
pub open spec fn is_header_for(r: Result<Vec<u8>, ApiError>, access_token: Seq<char>) -> bool {
    if is_header_text(bearer(access_token)) {
        r matches Ok(value) && value@ == encode_utf8(bearer(access_token))
    } else {
        r == Err::<Vec<u8>, ApiError>(ApiError::Header)
    }
}

impl YouTube {
    /// Uses a token.
    pub fn new(token: StoredToken) -> (r: YouTube)
        ensures
            r == using(token),
            r.token == token,
    {
        YouTube { token }
    }

    /// The value of the header `Authorization` that every call carries.
    pub fn auth_headers(&self) -> (r: Result<Vec<u8>, ApiError>)
        ensures
            is_header_for(r, self.token.access_token@),
            if is_header_text(bearer(self.token.access_token@)) {
                r matches Ok(value) && value@ == encode_utf8(bearer(self.token.access_token@))
            } else {
                r == Err::<Vec<u8>, ApiError>(ApiError::Header)
            },
    {
        let mut value = "Bearer ".to_string();
        value.append(self.token.access_token.as_str());
        match header_value(value.as_str()) {
            Ok(bytes) => Ok(bytes),
            Err(_) => Err(ApiError::Header),
        }
    }

    /// How to ask for the live chat of a video. See `live_chat_of` for the answer.
    pub fn get_live_chat_id(&self, video_id: &str) -> (r: Result<ApiRequest, ApiError>)
        ensures
            is_made(
                r,
                self.token.access_token@,
                video_request(self.token.access_token@, video_id@),
            ),
    {
        let authorization = match self.auth_headers() {
            Ok(value) => value,
            Err(e) => return Err(e),
        };
        let mut query: Vec<(String, String)> = Vec::new();
        query.push(("part".to_string(), "liveStreamingDetails,snippet".to_string()));
        query.push(("id".to_string(), video_id.to_string()));
        let r = ApiRequest {
            method: ApiMethod::Get,
            url: VIDEOS_URL.to_string(),
            query,
            authorization,
            body: None,
        };
        assert(r@.query == video_request(self.token.access_token@, video_id@).query);
        Ok(r)
    }

    /// How to ask for a page of messages.
    pub fn list_messages(
        &self,
        live_chat_id: &str,
        page_token: Option<&str>,
    ) -> (r: Result<ApiRequest, ApiError>)
        ensures
            is_made(
                r,
                self.token.access_token@,
                page_request(
                    self.token.access_token@,
                    live_chat_id@,
                    match page_token {
                        Some(t) => Some(t@),
                        None => None,
                    },
                ),
            ),
    {
        let authorization = match self.auth_headers() {
            Ok(value) => value,
            Err(e) => return Err(e),
        };
        let mut query: Vec<(String, String)> = Vec::new();
        query.push(("liveChatId".to_string(), live_chat_id.to_string()));
        query.push(("part".to_string(), "snippet,authorDetails".to_string()));
        query.push(("maxResults".to_string(), "200".to_string()));
        if let Some(t) = page_token {
            query.push(("pageToken".to_string(), t.to_string()));
        }
        let r = ApiRequest {
            method: ApiMethod::Get,
            url: MESSAGES_URL.to_string(),
            query,
            authorization,
            body: None,
        };
        proof {
            let asked = match page_token {
                Some(t) => Some(t@),
                None => None,
            };
            assert(r@.query == page_request(
                self.token.access_token@,
                live_chat_id@,
                asked,
            ).query);
        }
        Ok(r)
    }

    /// How to send a message.
    pub fn send_message(&self, live_chat_id: &str, text: &str) -> (r: Result<ApiRequest, ApiError>)
        ensures
            is_made(
                r,
                self.token.access_token@,
                send_request(self.token.access_token@, live_chat_id@, text@),
            ),
            r matches Ok(made) ==> (made.body matches Some(body) && {
                &&& body.snippet.live_chat_id@ == live_chat_id@
                &&& body.snippet.kind_type@ == "textMessageEvent"@
                &&& body.snippet.text_message_details.message_text@ == text@
            }),
    {
        let authorization = match self.auth_headers() {
            Ok(value) => value,
            Err(e) => return Err(e),
        };
        let snippet = SendMessageSnippet {
            live_chat_id: live_chat_id.to_string(),
            kind_type: "textMessageEvent".to_string(),
            text_message_details: TextMessageDetails { message_text: text.to_string() },
        };
        let r = ApiRequest {
            method: ApiMethod::Post,
            url: SEND_URL.to_string(),
            query: Vec::new(),
            authorization,
            body: Some(SendMessageRequest { snippet }),
        };
        assert(r@.query == Seq::<(Seq<char>, Seq<char>)>::empty());
        Ok(r)
    }
}

/// Every call carries the access token.
pub proof fn law_token_is_sent(
    access_token: Seq<char>,
    video_id: Seq<char>,
    live_chat_id: Seq<char>,
    page_token: Option<Seq<char>>,
    text: Seq<char>,
)
    ensures
        video_request(access_token, video_id).authorization == encode_utf8(bearer(access_token)),
        page_request(access_token, live_chat_id, page_token).authorization == encode_utf8(
            bearer(access_token),
        ),
        send_request(access_token, live_chat_id, text).authorization == encode_utf8(
            bearer(access_token),
        ),
{
}

/// A page of messages is asked for by its live chat and, where one is known, by its token: none
/// until a page has come, and from then on the one that the last page named.
pub proof fn law_page_query(
    access_token: Seq<char>,
    live_chat_id: Seq<char>,
    events: Seq<PollEvent>,
)
    ensures
        ({
            let page_token = after_all(start(), events).page_token;
            let query = page_request(access_token, live_chat_id, page_token).query;
            &&& first_value(query, "liveChatId"@) == Some(live_chat_id)
            &&& first_value(query, "pageToken"@) == page_token
            &&& !has_page(events) ==> first_value(query, "pageToken"@) is None
            &&& events.len() > 0 ==> match events.last() {
                PollEvent::Page { next_page_token } => first_value(query, "pageToken"@)
                    == next_page_token,
                PollEvent::Failure => page_token == after_all(
                    start(),
                    events.drop_last(),
                ).page_token,
            }
        }),
{
    law_first_page(events);
    let page_token = after_all(start(), events).page_token;
    let query = page_request(access_token, live_chat_id, page_token).query;
    reveal_strlit("liveChatId");
    reveal_strlit("part");
    reveal_strlit("maxResults");
    reveal_strlit("pageToken");
    reveal_with_fuel(first_value, 5);
    assert("liveChatId"@[0] != "pageToken"@[0]);
    assert("part"@.len() != "pageToken"@.len());
    assert("maxResults"@[0] != "pageToken"@[0]);
    assert(query.drop_first().drop_first().drop_first() == match page_token {
        Some(t) => seq![("pageToken"@, t)],
        None => Seq::<(Seq<char>, Seq<char>)>::empty(),
    });
}

impl ApiCall {
    /// What the call is named in messages.
    pub open spec fn name(self) -> Seq<char> {
        match self {
            ApiCall::VideosList => "videos.list"@,
            ApiCall::MessagesList => "liveChatMessages.list"@,
            ApiCall::MessagesInsert => "liveChatMessages.insert"@,
        }
    }

    /// What the call is named in messages.
    pub fn label(&self) -> (r: &'static str)
        ensures
            r@ == self.name(),
    {
        match self {
            ApiCall::VideosList => "videos.list",
            ApiCall::MessagesList => "liveChatMessages.list",
            ApiCall::MessagesInsert => "liveChatMessages.insert",
        }
    }
}

/// Whether an HTTP status says that a call succeeded, so that its body is JSON.
pub open spec fn succeeds(status: u16) -> bool {
    200 <= status <= 299
}

/// Whether an HTTP status says that a call succeeded, so that its body is JSON.
pub fn is_success(status: u16) -> (r: bool)
    ensures
        r == succeeds(status),
        r == (200 <= status <= 299),
{
    200 <= status && status <= 299
}

/// What came of a call that was answered with a status.
pub open spec fn replied<T>(status: u16, json: Option<T>, body: Option<String>) -> ApiReply<T> {
    if succeeds(status) {
        match json {
            Some(value) => ApiReply::Json(value),
            None => ApiReply::BadJson,
        }
    } else {
        ApiReply::Failure { status, body }
    }
}

/// What came of a call that was answered with a status: with one that says that it succeeded,
/// what the body was read as, if it could be; with any other, the body, if it could be read.
pub fn reply_of<T>(status: u16, json: Option<T>, body: Option<String>) -> (r: ApiReply<T>)
    ensures
        r == replied(status, json, body),
        r == if 200 <= status <= 299 {
            match json {
                Some(value) => ApiReply::Json(value),
                None => ApiReply::BadJson,
            }
        } else {
            ApiReply::Failure { status, body }
        },
{
    if is_success(status) {
        match json {
            Some(value) => ApiReply::Json(value),
            None => ApiReply::BadJson,
        }
    } else {
        ApiReply::Failure { status, body }
    }
}

/// Whether a call comes to a result.
pub open spec fn comes_to<T>(reply: ApiReply<T>, call: ApiCall, r: Result<T, ApiError>) -> bool {
    match reply {
        ApiReply::NotSent => r == Err::<T, ApiError>(ApiError::NotSent(call)),
        ApiReply::Json(value) => r == Ok::<T, ApiError>(value),
        ApiReply::BadJson => r == Err::<T, ApiError>(ApiError::BadJson(call)),
        ApiReply::Failure { status, body } => {
            &&& r matches Err(ApiError::Http { call: c, status: s, body: b })
            &&& c == call && s == status
            &&& b@ == match body {
                Some(text) => text@,
                None => "<failed to read response body>"@,
            }
        },
    }
}

/// Takes what a call was for out of what came of it.
pub fn json_or_error<T>(reply: ApiReply<T>, call: ApiCall) -> (r: Result<T, ApiError>)
    ensures
        comes_to(reply, call, r),
        match reply {
            ApiReply::NotSent => r == Err::<T, ApiError>(ApiError::NotSent(call)),
            ApiReply::Json(value) => r == Ok::<T, ApiError>(value),
            ApiReply::BadJson => r == Err::<T, ApiError>(ApiError::BadJson(call)),
            ApiReply::Failure { status, body } => {
                &&& r matches Err(ApiError::Http { call: c, status: s, body: b })
                &&& c == call && s == status
                &&& b@ == match body {
                    Some(text) => text@,
                    None => "<failed to read response body>"@,
                }
            },
        },
{
    match reply {
        ApiReply::NotSent => Err(ApiError::NotSent(call)),
        ApiReply::Json(value) => Ok(value),
        ApiReply::BadJson => Err(ApiError::BadJson(call)),
        ApiReply::Failure { status, body } => {
            let body = match body {
                Some(text) => text,
                None => "<failed to read response body>".to_string(),
            };
            Err(ApiError::Http { call, status, body })
        },
    }
}

/// The live chat of a video that is live.
pub open spec fn active_chat(item: VideoItem) -> Option<String> {
    match item.live_streaming_details {
        Some(details) => details.active_live_chat_id,
        None => None,
    }
}

/// Whether a result is the live chat, the title and the channel of the first video of an answer.
pub open spec fn is_chat_of(
    response: VideosListResponse,
    video_id: Seq<char>,
    r: Result<(String, String, String), ApiError>,
) -> bool {
    if response.items@.len() == 0 {
        r matches Err(ApiError::VideoNotFound { video_id: id }) && id@ == video_id
    } else {
        let item = response.items@[0];
        match active_chat(item) {
            Some(chat) => r == Ok::<(String, String, String), ApiError>(
                (chat, item.snippet.title, item.snippet.channel_title),
            ),
            None => r == Err::<(String, String, String), ApiError>(ApiError::NoLiveChat),
        }
    }
}

/// Takes the live chat, the title and the channel of the first video out of an answer.
pub fn live_chat_of(response: VideosListResponse, video_id: &str) -> (r: Result<
    (String, String, String),
    ApiError,
>)
    ensures
        is_chat_of(response, video_id@, r),
        response.items.len() == 0 ==> (r matches Err(ApiError::VideoNotFound { video_id: id })
            && id@ == video_id@),
        response.items.len() > 0 ==> ({
            let item = response.items[0];
            match active_chat(item) {
                Some(chat) => r == Ok::<(String, String, String), ApiError>(
                    (chat, item.snippet.title, item.snippet.channel_title),
                ),
                None => r == Err::<(String, String, String), ApiError>(ApiError::NoLiveChat),
            }
        }),
{
    let mut items = response.items;
    if items.len() == 0 {
        return Err(ApiError::VideoNotFound { video_id: video_id.to_string() });
    }
    let item = items.remove(0);
    let chat = match item.live_streaming_details {
        Some(details) => details.active_live_chat_id,
        None => None,
    };
    match chat {
        Some(chat) => Ok((chat, item.snippet.title, item.snippet.channel_title)),
        None => Err(ApiError::NoLiveChat),
    }
}

impl ApiError {
    /// What went wrong, in words.
    pub open spec fn text(self) -> Seq<char> {
        match self {
            ApiError::Header => "build Authorization header"@,
            ApiError::NotSent(call) => call.name() + " request"@,
            ApiError::BadJson(call) => "parse "@ + call.name() + " response json"@,
            ApiError::Http { call, status, body } => call.name() + " failed: HTTP "@ + decimal(
                status as nat,
            ) + " body: "@ + body@,
            ApiError::VideoNotFound { video_id } => "Video not found: "@ + video_id@,
            ApiError::NoLiveChat => "No active live chat found. Is the stream live?"@,
        }
    }

    /// What went wrong, in words.
    pub fn message(&self) -> (r: String)
        ensures
            r@ == self.text(),
    {
        match self {
            ApiError::Header => "build Authorization header".to_string(),
            ApiError::NotSent(call) => {
                let mut r = call.label().to_string();
                r.append(" request");
                r
            },
            ApiError::BadJson(call) => {
                let mut r = "parse ".to_string();
                r.append(call.label());
                r.append(" response json");
                r
            },
            ApiError::Http { call, status, body } => {
                let mut r = call.label().to_string();
                r.append(" failed: HTTP ");
                r.append(decimal_text(*status as u64).as_str());
                r.append(" body: ");
                r.append(body.as_str());
                r
            },
            ApiError::VideoNotFound { video_id } => {
                let mut r = "Video not found: ".to_string();
                r.append(video_id.as_str());
                r
            },
            ApiError::NoLiveChat => "No active live chat found. Is the stream live?".to_string(),
        }
    }
}

/// Every call carries the header `Bearer` with the whole access token, exactly if the token holds
/// no control character but tabs; otherwise no call is made.
pub proof fn law_header(access_token: Seq<char>, r: Result<Vec<u8>, ApiError>)
    requires
        is_header_for(r, access_token),
    ensures
        r is Ok <==> forall|i: int|
            0 <= i < access_token.len() ==> #[trigger] access_token[i] == '\t' || (access_token[i]
                >= '\u{20}' && access_token[i] != '\u{7f}'),
        r matches Ok(value) ==> value@ == encode_utf8("Bearer "@ + access_token),
        r matches Err(e) ==> e is Header,
{
    lemma_bearer(access_token);
}

proof fn lemma_bearer(access_token: Seq<char>)
    ensures
        is_header_text(bearer(access_token)) <==> forall|i: int|
            0 <= i < access_token.len() ==> #[trigger] access_token[i] == '\t' || (access_token[i]
                >= '\u{20}' && access_token[i] != '\u{7f}'),
{
    reveal_strlit("Bearer ");
    let s = bearer(access_token);
    if is_header_text(s) {
        assert forall|i: int| 0 <= i < access_token.len() implies #[trigger] access_token[i] == '\t'
            || (access_token[i] >= '\u{20}' && access_token[i] != '\u{7f}') by {
            assert(s[i + 7] == access_token[i]);
        }
    }
    if forall|i: int|
        0 <= i < access_token.len() ==> #[trigger] access_token[i] == '\t' || (access_token[i]
            >= '\u{20}' && access_token[i] != '\u{7f}') {
        assert forall|i: int| 0 <= i < s.len() implies is_header_char(#[trigger] s[i]) by {
            if i >= 7 {
                assert(s[i] == access_token[i - 7]);
            }
        }
    }
}

/// Requests are made exactly if the token can be sent.
pub proof fn law_request_is_made(
    r: Result<ApiRequest, ApiError>,
    access_token: Seq<char>,
    request: ApiRequestView,
)
    requires
        is_made(r, access_token, request),
    ensures
        r is Ok <==> forall|i: int|
            0 <= i < access_token.len() ==> #[trigger] access_token[i] == '\t' || (access_token[i]
                >= '\u{20}' && access_token[i] != '\u{7f}'),
        r matches Ok(made) ==> made@ == request,
        r matches Err(e) ==> e is Header,
{
    lemma_bearer(access_token);
}

/// A message is sent to the live chat given, whole and as a text message.
pub proof fn law_message_is_sent(
    request: ApiRequest,
    access_token: Seq<char>,
    live_chat_id: Seq<char>,
    text: Seq<char>,
)
    requires
        request@ == send_request(access_token, live_chat_id, text),
    ensures
        request.method == ApiMethod::Post,
        request.url@ == "https://www.googleapis.com/youtube/v3/liveChat/messages?part=snippet"@,
        request.query@.len() == 0,
        request.authorization@ == encode_utf8("Bearer "@ + access_token),
        request.body matches Some(body) && {
            &&& body.snippet.live_chat_id@ == live_chat_id
            &&& body.snippet.kind_type@ == "textMessageEvent"@
            &&& body.snippet.text_message_details.message_text@ == text
        },
{
    assert(pair_texts(request.query@).len() == request.query@.len());
}

/// A video is looked up by its id, with its live streaming details and its snippet.
pub proof fn law_video_is_asked_for(
    request: ApiRequest,
    access_token: Seq<char>,
    video_id: Seq<char>,
)
    requires
        request@ == video_request(access_token, video_id),
    ensures
        request.method == ApiMethod::Get,
        request.url@ == "https://www.googleapis.com/youtube/v3/videos"@,
        request.query@.len() == 2,
        request.query@[0].0@ == "part"@,
        request.query@[0].1@ == "liveStreamingDetails,snippet"@,
        request.query@[1].0@ == "id"@,
        request.query@[1].1@ == video_id,
        request.authorization@ == encode_utf8("Bearer "@ + access_token),
        request.body is None,
{
    let texts = pair_texts(request.query@);
    assert(texts.len() == request.query@.len());
    assert(texts[0] == (request.query@[0].0@, request.query@[0].1@));
    assert(texts[1] == (request.query@[1].0@, request.query@[1].1@));
}

/// A page is asked for by its live chat and, exactly where one is given, by its token, with at
/// most two hundred messages.
pub proof fn law_page_is_asked_for(
    request: ApiRequest,
    access_token: Seq<char>,
    live_chat_id: Seq<char>,
    page_token: Option<Seq<char>>,
)
    requires
        request@ == page_request(access_token, live_chat_id, page_token),
    ensures
        request.method == ApiMethod::Get,
        request.url@ == "https://www.googleapis.com/youtube/v3/liveChat/messages"@,
        request.query@.len() == if page_token is Some {
            4int
        } else {
            3int
        },
        request.query@[0].0@ == "liveChatId"@,
        request.query@[0].1@ == live_chat_id,
        request.query@[1].0@ == "part"@,
        request.query@[1].1@ == "snippet,authorDetails"@,
        request.query@[2].0@ == "maxResults"@,
        request.query@[2].1@ == "200"@,
        page_token matches Some(t) ==> request.query@[3].0@ == "pageToken"@
            && request.query@[3].1@ == t,
        request.authorization@ == encode_utf8("Bearer "@ + access_token),
        request.body is None,
{
    let texts = pair_texts(request.query@);
    assert(texts.len() == request.query@.len());
    assert(texts[0] == (request.query@[0].0@, request.query@[0].1@));
    assert(texts[1] == (request.query@[1].0@, request.query@[1].1@));
    assert(texts[2] == (request.query@[2].0@, request.query@[2].1@));
    if page_token is Some {
        assert(texts[3] == (request.query@[3].0@, request.query@[3].1@));
    }
}

/// A call that was answered comes to a value exactly if the status is one of the two hundreds and
/// the body could be read as one, and then to that value; otherwise the error names the call and,
/// for another status, that status and the whole body, if it could be read.
pub proof fn law_answer<T>(
    status: u16,
    json: Option<T>,
    body: Option<String>,
    call: ApiCall,
    r: Result<T, ApiError>,
)
    requires
        comes_to(replied(status, json, body), call, r),
    ensures
        r is Ok <==> status / 100 == 2 && json is Some,
        r matches Ok(value) ==> json == Some(value),
        status / 100 == 2 && json is None ==> r == Err::<T, ApiError>(ApiError::BadJson(call)),
        status / 100 != 2 ==> (r matches Err(ApiError::Http { call: c, status: s, body: b }) && {
            &&& c == call
            &&& s == status
            &&& body matches Some(text) ==> b@ == text@
            &&& body is None ==> b@ == "<failed to read response body>"@
        }),
{
}

/// A status says that a call succeeded exactly if it is one of the two hundreds.
pub proof fn law_success(status: u16)
    ensures
        succeeds(status) <==> status / 100 == 2,
{
}

/// A call that was not sent comes to an error that names it.
pub proof fn law_not_sent<T>(call: ApiCall, r: Result<T, ApiError>)
    requires
        comes_to(ApiReply::<T>::NotSent, call, r),
    ensures
        r == Err::<T, ApiError>(ApiError::NotSent(call)),
{
}

/// The first video found gives its live chat, its title and its channel, whole and in this order,
/// exactly if it has a live chat; without any video, the id asked for is named.
pub proof fn law_live_chat(
    response: VideosListResponse,
    video_id: Seq<char>,
    r: Result<(String, String, String), ApiError>,
)
    requires
        is_chat_of(response, video_id, r),
    ensures
        response.items@.len() == 0 ==> (r matches Err(ApiError::VideoNotFound { video_id: id })
            && id@ == video_id),
        response.items@.len() > 0 ==> ({
            let item = response.items@[0];
            let live = item.live_streaming_details matches Some(details)
                && details.active_live_chat_id is Some;
            &&& r is Ok <==> live
            &&& r matches Err(e) ==> e is NoLiveChat
            &&& r matches Ok((chat, title, channel)) ==> {
                &&& chat@ == item.live_streaming_details->0.active_live_chat_id->0@
                &&& title@ == item.snippet.title@
                &&& channel@ == item.snippet.channel_title@
            }
        }),
{
}

/// The error of an answer with another status names the call, the status in decimal and the whole
/// body; that of a missing video the whole id.
pub proof fn law_error_texts(call: ApiCall, status: u16, body: String, video_id: String)
    ensures
        exists|digits: Seq<char>|
            {
                &&& (ApiError::Http { call, status, body }).text() == call.name()
                    + " failed: HTTP "@ + digits + " body: "@ + body@
                &&& #[trigger] number(digits) == status
                &&& digits.len() > 1 ==> digits[0] != '0'
            },
        (ApiError::VideoNotFound { video_id }).text() == "Video not found: "@ + video_id@,
        ApiError::NotSent(call).text() == call.name() + " request"@,
        ApiError::BadJson(call).text() == "parse "@ + call.name() + " response json"@,
        call.name() == match call {
            ApiCall::VideosList => "videos.list"@,
            ApiCall::MessagesList => "liveChatMessages.list"@,
            ApiCall::MessagesInsert => "liveChatMessages.insert"@,
        },
{
    law_decimal(status as nat);
    assert(number(decimal(status as nat)) == status);
}

/// Calls are made with the whole token that was given.
pub proof fn law_using(token: StoredToken)
    ensures
        using(token).token.access_token@ == token.access_token@,
        using(token).token == token,
{
}

} // verus!
