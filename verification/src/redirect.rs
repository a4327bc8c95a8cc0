//! The local web server that the browser is sent back to with an authorization code.
use vstd::prelude::*;
use vstd::utf8::{decode_utf8, encode_utf8, is_ascii_chars_encode_utf8, valid_utf8};

use crate::text::{
    byte_len, decimal, decimal_text, law_decimal, law_request_target, lemma_place_of, number,
    request_target, target_of_request, text_of, white_space,
};
use crate::web::{
    decoded, find_value, first_value, form_pair, form_pairs, has_loopback_parts, has_plain_parts,
    is_escape_at, is_form_query, is_loopback_url, is_plain, is_plain_path, law_first_value,
    law_plain_text, local_url, pair_texts, query_of, url_query, PairsView,
};

verus! {

/// How long to wait for the browser, in seconds.
pub const AUTH_TIMEOUT_SECS: u64 = 180;

/// The pause between two looks for a connection, in milliseconds.
pub const ACCEPT_PAUSE_MS: u64 = 50;

/// The most bytes read of a request.
pub const REQUEST_LIMIT: usize = 4096;

/// Why waiting for an authorization code came to nothing.
#[derive(Debug, Clone, Copy, PartialEq, Eq, Structural)]
pub enum RedirectError {
    TimedOut,
    Malformed,
    BadUrl,
    Accept,
}

impl RedirectError {
    /// What went wrong, in words.
    pub open spec fn text(self) -> Seq<char> {
        match self {
            RedirectError::TimedOut => "Timed out waiting for OAuth redirect"@,
            RedirectError::Malformed => "malformed HTTP request"@,
            RedirectError::BadUrl => "parse redirect URL"@,
            RedirectError::Accept => "accept redirect connection"@,
        }
    }

    /// What went wrong, in words.
    pub fn message(&self) -> (r: String)
        ensures
            r@ == self.text(),
    {
        match self {
            RedirectError::TimedOut => "Timed out waiting for OAuth redirect".to_string(),
            RedirectError::Malformed => "malformed HTTP request".to_string(),
            RedirectError::BadUrl => "parse redirect URL".to_string(),
            RedirectError::Accept => "accept redirect connection".to_string(),
        }
    }
}

/// The answer to a request, and the authorization code in it.
#[derive(Debug)]
pub struct RedirectReply {
    pub response: String,
    pub code: Option<String>,
}

/// What came of looking for a connection.
#[derive(Debug)]
pub enum Accepted {
    Request(Vec<u8>),
    WouldBlock,
    Failed,
}

/// What to do next: answer a request and stop with the code in it; answer one and go on; pause
/// and go on; or give up.
#[derive(Debug)]
pub enum WaitAction {
    Finish { response: String, code: String },
    Answer { response: String },
    Pause { millis: u64 },
    GiveUp(RedirectError),
}

/// What `String::from_utf8_lossy` makes of bytes.
pub uninterp spec fn utf8_lossy(bytes: Seq<u8>) -> Seq<char>;

/// `String::from_utf8_lossy`: the text that bytes are in UTF-8. Where they are not UTF-8, the
/// replacement character stands for what is wrong; how often is not spelled out.
#[verifier::external_body]
fn decode_lossy(bytes: &[u8]) -> (r: String)
    ensures
        r@ == utf8_lossy(bytes@),
        valid_utf8(bytes@) ==> r@ == decode_utf8(bytes@),
{
    String::from_utf8_lossy(bytes).into_owned()
}

/// The URL that the browser is sent back to.
pub open spec fn redirect_uri(port: u16) -> Seq<char> {
    "http://127.0.0.1:"@ + decimal(port as nat) + "/oauth2/callback"@
}

/// The number of digits that a 16-bit number takes.
proof fn lemma_port_digits(port: u16)
    ensures
        1 <= decimal(port as nat).len() <= 5,
{
    reveal_with_fuel(decimal, 5);
}

/// Wherever the browser is sent back to is a URL of this machine.
pub proof fn law_redirect_uri(port: u16)
    ensures
        is_loopback_url(redirect_uri(port)),
{
    let path = "oauth2/callback"@;
    reveal_strlit("http://127.0.0.1:");
    reveal_strlit("/");
    reveal_strlit("oauth2/callback");
    reveal_strlit("/oauth2/callback");
    lemma_port_digits(port);
    assert("/oauth2/callback"@ == "/"@ + path);
    assert(redirect_uri(port) == "http://127.0.0.1:"@ + decimal(port as nat) + "/"@ + path);
    assert(has_loopback_parts(redirect_uri(port), port, path));
}

/// Makes the URL that the browser is sent back to.
pub fn redirect_uri_for(port: u16) -> (r: String)
    ensures
        r@ == redirect_uri(port),
{
    let mut r = "http://127.0.0.1:".to_string();
    r.append(decimal_text(port as u64).as_str());
    r.append("/oauth2/callback");
    r
}

/// What the browser shows.
pub open spec fn page_text(has_code: bool) -> Seq<char> {
    if has_code {
        "Authentication complete. You can close this tab and return to the terminal."@
    } else {
        "Missing `code` parameter. You can close this tab."@
    }
}

/// A text as an HTTP response.
pub open spec fn http_response(body: Seq<char>) -> Seq<char> {
    "HTTP/1.1 200 OK\r\nContent-Type: text/plain\r\nContent-Length: "@ + decimal(
        byte_len(body) as nat,
    ) + "\r\n\r\n"@ + body
}

/// Whether a reply answers a request with these names and values in its query.
pub open spec fn answers(reply: RedirectReply, pairs: PairsView) -> bool {
    &&& text_of(reply.code) == first_value(pairs, "code"@)
    &&& reply.response@ == http_response(page_text(first_value(pairs, "code"@) is Some))
}

/// The URL that a request asks for.
pub open spec fn requested_url(target: Seq<char>) -> Seq<char> {
    "http://localhost"@ + target
}

/// What is made of the text of a request.
pub open spec fn handled(text: Seq<char>, r: Result<RedirectReply, RedirectError>) -> bool {
    match request_target(text) {
        None => r == Err::<RedirectReply, RedirectError>(RedirectError::Malformed),
        Some(target) => match url_query(requested_url(target)) {
            None => r == Err::<RedirectReply, RedirectError>(RedirectError::BadUrl),
            Some(pairs) => r matches Ok(reply) && answers(reply, pairs),
        },
    }
}

/// What the browser asks for when it brings a code, with other names and values behind it.
pub open spec fn callback_target(code: Seq<char>, more: Seq<char>) -> Seq<char> {
    "/oauth2/callback?code="@ + code + more
}

/// Whether a text is the request by which the browser brings a code, written with nothing but
/// ASCII encoded.
pub open spec fn brings_code(
    text: Seq<char>,
    code: Seq<char>,
    more: Seq<char>,
    rest: Seq<char>,
) -> bool {
    &&& text == "GET"@ + seq![' '] + callback_target(code, more) + seq![' '] + "HTTP/1.1"@ + seq![
        '\r',
        '\n',
    ] + rest
    &&& is_form_query(code)
    &&& !code.contains('&')
    &&& is_form_query(more)
    &&& more.len() > 0 ==> more.first() == '&'
    &&& code.len() + more.len() <= 60000
}

proof fn lemma_callback_target(
    text: Seq<char>,
    code: Seq<char>,
    more: Seq<char>,
    rest: Seq<char>,
)
    requires
        brings_code(text, code, more, rest),
    ensures
        request_target(text) == Some(callback_target(code, more)),
{
    let target = callback_target(code, more);
    reveal_strlit("GET");
    reveal_strlit("HTTP/1.1");
    reveal_strlit("/oauth2/callback?code=");
    let head = "/oauth2/callback?code="@;
    assert forall|i: int| 0 <= i < target.len() implies !white_space(#[trigger] target[i]) by {
        if i < head.len() {
            assert(target[i] == head[i]);
        } else if i < head.len() + code.len() {
            assert(target[i] == code[i - head.len()]);
        } else {
            assert(target[i] == more[i - head.len() - code.len()]);
        }
    }
    law_request_target("GET"@, target, "HTTP/1.1"@, rest);
}

proof fn lemma_callback_pairs(code: Seq<char>, more: Seq<char>)
    requires
        is_form_query(code),
        !code.contains('&'),
        is_form_query(more),
        more.len() > 0 ==> more.first() == '&',
        code.len() + more.len() <= 60000,
    ensures
        has_plain_parts(
            requested_url(callback_target(code, more)),
            "oauth2/callback"@,
            "code="@ + code + more,
        ),
        first_value(form_pairs("code="@ + code + more), "code"@) == Some(decoded(code)),
{
    reveal_strlit("/oauth2/callback?code=");
    reveal_strlit("http://localhost");
    reveal_strlit("http://localhost/");
    reveal_strlit("oauth2/callback");
    reveal_strlit("?");
    reveal_strlit("code=");
    reveal_strlit("code");
    let query = "code="@ + code + more;
    assert(requested_url(callback_target(code, more)) == local_url(
        "oauth2/callback"@,
        query,
    ));
    let piece = "code="@ + code;
    let n = piece.len() as int;
    assert forall|i: int| 0 <= i < n implies query[i] != '&' by {
        assert(query[i] == piece[i]);
        if i >= 5 {
            assert(piece[i] == code[i - 5]);
        }
    }
    assert(more.len() > 0 ==> query[n] == more[0]);
    lemma_place_of(query, '&', n);
    assert(query.first() == 'c');
    assert(query.take(n) == piece);
    assert(form_pairs(query) == seq![form_pair(piece)] + form_pairs(query.skip(n)));
    lemma_place_of(piece, '=', 4);
    assert(piece.take(4) == "code"@);
    assert(piece.skip(5) == code);
    law_plain_text("code"@);
    assert(form_pairs(query).first() == ("code"@, decoded(code)));
    assert forall|i: int| 0 <= i < query.len() implies is_plain(#[trigger] query[i]) || query[i]
        == '=' || query[i] == '&' || query[i] == '+' || is_escape_at(query, i) by {
        if i >= n {
            assert(query[i] == more[i - n]);
            if is_escape_at(more, i - n) {
                assert(query[i + 1] == more[i - n + 1] && query[i + 2] == more[i - n + 2]);
            }
        } else if i >= 5 {
            assert(query[i] == code[i - 5]);
            if is_escape_at(code, i - 5) {
                assert(query[i + 1] == code[i - 4] && query[i + 2] == code[i - 3]);
            }
        }
    }
}

/// Answers a request with these names and values in its query.
pub fn reply_to(pairs: &Vec<(String, String)>) -> (r: RedirectReply)
    ensures
        answers(r, pair_texts(pairs@)),
{
    let code = find_value(pairs, "code");
    let body = if code.is_some() {
        "Authentication complete. You can close this tab and return to the terminal."
    } else {
        "Missing `code` parameter. You can close this tab."
    };
    let mut response =
        "HTTP/1.1 200 OK\r\nContent-Type: text/plain\r\nContent-Length: ".to_string();
    response.append(decimal_text(body.len() as u64).as_str());
    response.append("\r\n\r\n");
    response.append(body);
    RedirectReply { response, code }
}

/// Answers a request, given its text.
pub fn handle_text(text: &str) -> (r: Result<RedirectReply, RedirectError>)
    ensures
        handled(text@, r),
        forall|code: Seq<char>, more: Seq<char>, rest: Seq<char>| #[trigger]
            brings_code(text@, code, more, rest) ==> (r matches Ok(reply) && text_of(reply.code)
                == Some(decoded(code))),
{
    proof {
        assert forall|code: Seq<char>, more: Seq<char>, rest: Seq<char>| #[trigger]
            brings_code(text@, code, more, rest) implies {
            &&& request_target(text@) == Some(callback_target(code, more))
            &&& has_plain_parts(
                requested_url(callback_target(code, more)),
                "oauth2/callback"@,
                "code="@ + code + more,
            )
            &&& first_value(form_pairs("code="@ + code + more), "code"@) == Some(decoded(code))
        } by {
            lemma_callback_target(text@, code, more, rest);
            lemma_callback_pairs(code, more);
        }
    }
    match target_of_request(text) {
        None => Err(RedirectError::Malformed),
        Some(target) => {
            let mut url = "http://localhost".to_string();
            url.append(target.as_str());
            match query_of(url.as_str()) {
                None => Err(RedirectError::BadUrl),
                Some(pairs) => Ok(reply_to(&pairs)),
            }
        },
    }
}

/// Answers a request, given its bytes.
pub fn handle_request(request: &[u8]) -> (r: Result<RedirectReply, RedirectError>)
    ensures
        handled(utf8_lossy(request@), r),
        valid_utf8(request@) ==> handled(decode_utf8(request@), r),
        forall|code: Seq<char>, more: Seq<char>, rest: Seq<char>|
            valid_utf8(request@) && #[trigger] brings_code(decode_utf8(request@), code, more, rest)
                ==> (r matches Ok(reply) && text_of(reply.code) == Some(decoded(code))),
{
    let text = decode_lossy(request);
    handle_text(text.as_str())
}

/// Whether the time is not over yet.
pub open spec fn may_wait(elapsed_nanos: u128, timeout_secs: u64) -> bool {
    elapsed_nanos <= timeout_secs * 1000000000
}

/// Whether to look for a connection, or to give up because the time is over.
pub fn before_accept(elapsed_nanos: u128, timeout_secs: u64) -> (r: Result<(), RedirectError>)
    ensures
        r is Ok <==> may_wait(elapsed_nanos, timeout_secs),
        r == if elapsed_nanos > timeout_secs * 1000000000 {
            Err::<(), RedirectError>(RedirectError::TimedOut)
        } else {
            Ok::<(), RedirectError>(())
        },
{
    if elapsed_nanos > timeout_secs as u128 * 1000000000 {
        Err(RedirectError::TimedOut)
    } else {
        Ok(())
    }
}

/// Whether an action is what the text of a request asks for.
pub open spec fn acts_on(text: Seq<char>, action: WaitAction) -> bool {
    match action {
        WaitAction::Finish { response, code } => handled(
            text,
            Ok(RedirectReply { response, code: Some(code) }),
        ),
        WaitAction::Answer { response } => handled(
            text,
            Ok(RedirectReply { response, code: None }),
        ),
        WaitAction::GiveUp(e) => handled(text, Err(e)),
        WaitAction::Pause { .. } => false,
    }
}

/// What to do about what came of looking for a connection.
pub fn after_accept(accepted: Accepted) -> (r: WaitAction)
    ensures
        match accepted {
            Accepted::Request(bytes) => {
                &&& acts_on(utf8_lossy(bytes@), r)
                &&& valid_utf8(bytes@) ==> acts_on(decode_utf8(bytes@), r)
            },
            Accepted::WouldBlock => r == (WaitAction::Pause { millis: ACCEPT_PAUSE_MS }),
            Accepted::Failed => r == WaitAction::GiveUp(RedirectError::Accept),
        },
        accepted matches Accepted::Request(bytes) ==> forall|
            code: Seq<char>,
            more: Seq<char>,
            rest: Seq<char>,
        |
            valid_utf8(bytes@) && #[trigger] brings_code(decode_utf8(bytes@), code, more, rest)
                ==> (r matches WaitAction::Finish { code: brought, .. } && brought@ == decoded(code)),
{
    match accepted {
        Accepted::Request(bytes) => match handle_request(bytes.as_slice()) {
            Ok(reply) => match reply.code {
                Some(code) => WaitAction::Finish { response: reply.response, code },
                None => WaitAction::Answer { response: reply.response },
            },
            Err(e) => WaitAction::GiveUp(e),
        },
        Accepted::WouldBlock => WaitAction::Pause { millis: ACCEPT_PAUSE_MS },
        Accepted::Failed => WaitAction::GiveUp(RedirectError::Accept),
    }
}

/// The browser is sent back to the port given, on this machine.
pub proof fn law_redirect_port(port: u16)
    ensures
        exists|digits: Seq<char>|
            {
                &&& redirect_uri(port) == "http://127.0.0.1:"@ + digits + "/oauth2/callback"@
                &&& #[trigger] number(digits) == port
                &&& digits.len() > 1 ==> digits[0] != '0'
            },
{
    law_decimal(port as nat);
    assert(number(decimal(port as nat)) == port);
}

/// A reply hands on the whole value of the first pair named `code`, and has none exactly if no pair
/// has that name. Its response tells the user which of the two it is, and its length line counts
/// the bytes of what it tells.
pub proof fn law_reply(reply: RedirectReply, pairs: PairsView)
    requires
        answers(reply, pairs),
    ensures
        reply.code is None <==> forall|i: int|
            0 <= i < pairs.len() ==> (#[trigger] pairs[i]).0 != "code"@,
        forall|at: int|
            0 <= at < pairs.len() && (#[trigger] pairs[at]).0 == "code"@ && (forall|i: int|
                0 <= i < at ==> (#[trigger] pairs[i]).0 != "code"@) ==> (
            reply.code matches Some(code) && code@ == pairs[at].1),
        exists|digits: Seq<char>, body: Seq<char>|
            {
                &&& body == if reply.code is Some {
                    "Authentication complete. You can close this tab and return to the terminal."@
                } else {
                    "Missing `code` parameter. You can close this tab."@
                }
                &&& reply.response@
                    == "HTTP/1.1 200 OK\r\nContent-Type: text/plain\r\nContent-Length: "@ + digits
                    + "\r\n\r\n"@ + body
                &&& #[trigger] number(digits) == #[trigger] encode_utf8(body).len()
            },
{
    law_first_value(pairs, "code"@);
    let body = page_text(first_value(pairs, "code"@) is Some);
    reveal_strlit("Authentication complete. You can close this tab and return to the terminal.");
    reveal_strlit("Missing `code` parameter. You can close this tab.");
    is_ascii_chars_encode_utf8(body);
    let digits = decimal(byte_len(body) as nat);
    law_decimal(byte_len(body) as nat);
    assert(number(digits) == encode_utf8(body).len());
}

/// A request without a second word in its first line is malformed; one whose second word makes no
/// URL of this machine is refused; every other is answered by the names and values in that URL.
pub proof fn law_request_handled(text: Seq<char>, r: Result<RedirectReply, RedirectError>)
    requires
        handled(text, r),
    ensures
        request_target(text) is None ==> r == Err::<RedirectReply, RedirectError>(
            RedirectError::Malformed,
        ),
        request_target(text) matches Some(target) ==> {
            let url = "http://localhost"@ + target;
            &&& url_query(url) is None ==> r == Err::<RedirectReply, RedirectError>(
                RedirectError::BadUrl,
            )
            &&& url_query(url) matches Some(pairs) ==> (r matches Ok(reply) && answers(
                reply,
                pairs,
            ))
        },
{
}

/// A request is answered as its text asks, and the wait ends exactly with a code or an error.
pub proof fn law_request_acted_on(text: Seq<char>, action: WaitAction)
    requires
        acts_on(text, action),
    ensures
        action matches WaitAction::Finish { response, code } ==> handled(
            text,
            Ok(RedirectReply { response, code: Some(code) }),
        ),
        action matches WaitAction::Answer { response } ==> handled(
            text,
            Ok(RedirectReply { response, code: None }),
        ),
        request_target(text) is None ==> action == WaitAction::GiveUp(RedirectError::Malformed),
        !(action is Pause),
{
}

/// The wait is over as soon as more time has gone by than it may take, to the nanosecond, and
/// stays over.
pub proof fn law_wait_ends(elapsed_nanos: u128, later_nanos: u128, timeout_secs: u64)
    ensures
        elapsed_nanos <= timeout_secs * 1000000000 <==> may_wait(elapsed_nanos, timeout_secs),
        elapsed_nanos <= later_nanos && !may_wait(elapsed_nanos, timeout_secs) ==> !may_wait(
            later_nanos,
            timeout_secs,
        ),
{
}

/// A request by which the browser brings a code is one for the callback, whose query begins with
/// the code, as encoded, and may go on behind an ampersand.
pub proof fn law_brings_code(code: Seq<char>, more: Seq<char>, rest: Seq<char>)
    requires
        is_form_query(code),
        !code.contains('&'),
        is_form_query(more),
        more.len() > 0 ==> more.first() == '&',
        code.len() + more.len() <= 60000,
    ensures
        brings_code(
            "GET"@ + seq![' '] + ("/oauth2/callback?code="@ + code + more) + seq![' ']
                + "HTTP/1.1"@ + seq!['\r', '\n'] + rest,
            code,
            more,
            rest,
        ),
{
}

} // verus!
