use terminal_tube::redirect::{
    after_accept, before_accept, handle_request, handle_text, redirect_uri_for, reply_to,
    Accepted, RedirectError, WaitAction, ACCEPT_PAUSE_MS, AUTH_TIMEOUT_SECS, REQUEST_LIMIT,
};

const DONE: &str = "HTTP/1.1 200 OK\r\nContent-Type: text/plain\r\nContent-Length: 75\r\n\r\n\
    Authentication complete. You can close this tab and return to the terminal.";

const MISSING: &str = "HTTP/1.1 200 OK\r\nContent-Type: text/plain\r\nContent-Length: 49\r\n\r\n\
    Missing `code` parameter. You can close this tab.";

#[test]
fn limits() {
    assert_eq!(AUTH_TIMEOUT_SECS, 180);
    assert_eq!(ACCEPT_PAUSE_MS, 50);
    assert_eq!(REQUEST_LIMIT, 4096);
}

#[test]
fn the_redirect_names_the_port() {
    assert_eq!(redirect_uri_for(8080), "http://127.0.0.1:8080/oauth2/callback");
    assert_eq!(redirect_uri_for(0), "http://127.0.0.1:0/oauth2/callback");
    assert_eq!(redirect_uri_for(65535), "http://127.0.0.1:65535/oauth2/callback");
}

#[test]
fn a_callback_brings_the_code() {
    let request = b"GET /oauth2/callback?code=4/0AX4&scope=x HTTP/1.1\r\nHost: a\r\n\r\n";
    let r = handle_request(request).unwrap();
    assert_eq!(r.code.as_deref(), Some("4/0AX4"));
    assert_eq!(r.response, DONE);
}

#[test]
fn codes_are_decoded() {
    let r = handle_text("GET /oauth2/callback?state=s&code=a%2Fb+c&code=d HTTP/1.1\r\n").unwrap();
    assert_eq!(r.code.as_deref(), Some("a/b c"));
}

#[test]
fn an_empty_code_is_a_code() {
    let r = handle_text("GET /?code HTTP/1.1\r\n").unwrap();
    assert_eq!(r.code.as_deref(), Some(""));
    assert_eq!(r.response, DONE);
}

#[test]
fn a_request_without_a_code_is_answered() {
    for text in ["GET /favicon.ico HTTP/1.1\r\n\r\n", "GET /?error=denied HTTP/1.1", "GET /?Code=x"] {
        let r = handle_text(text).unwrap();
        assert_eq!(r.code, None);
        assert_eq!(r.response, MISSING);
    }
}

#[test]
fn a_malformed_request_is_refused() {
    for bytes in [&b""[..], &b"GET"[..], &b"\r\nGET /x"[..], &b"\xff\xfe"[..]] {
        assert_eq!(handle_request(bytes).unwrap_err(), RedirectError::Malformed);
    }
}

#[test]
fn a_target_that_makes_no_url_is_refused() {
    assert_eq!(handle_text("GET :99999/ HTTP/1.1").unwrap_err(), RedirectError::BadUrl);
    assert_eq!(handle_text("GET :x HTTP/1.1").unwrap_err(), RedirectError::BadUrl);
}

#[test]
fn wrong_bytes_are_replaced() {
    let r = handle_request(b"GET /?code=a\xffb HTTP/1.1\r\n").unwrap();
    assert_eq!(r.code.as_deref(), Some("a\u{fffd}b"));
}

#[test]
fn a_reply_to_pairs() {
    let pair = |a: &str, b: &str| (a.to_string(), b.to_string());
    let r = reply_to(&vec![pair("x", "1"), pair("code", "2"), pair("code", "3")]);
    assert_eq!(r.code.as_deref(), Some("2"));
    assert_eq!(r.response, DONE);
    assert_eq!(reply_to(&vec![]).response, MISSING);
}

#[test]
fn waiting_ends_after_the_time_out() {
    let limit = 180_000_000_000u128;
    assert_eq!(before_accept(0, 180), Ok(()));
    assert_eq!(before_accept(limit, 180), Ok(()));
    assert_eq!(before_accept(limit + 1, 180), Err(RedirectError::TimedOut));
    assert_eq!(before_accept(u128::MAX, u64::MAX), Err(RedirectError::TimedOut));
}

#[test]
fn what_follows_a_look_for_a_connection() {
    match after_accept(Accepted::WouldBlock) {
        WaitAction::Pause { millis } => assert_eq!(millis, 50),
        other => panic!("{other:?}"),
    }
    assert!(matches!(
        after_accept(Accepted::Failed),
        WaitAction::GiveUp(RedirectError::Accept)
    ));
    assert!(matches!(
        after_accept(Accepted::Request(Vec::new())),
        WaitAction::GiveUp(RedirectError::Malformed)
    ));
    assert!(matches!(
        after_accept(Accepted::Request(b"GET".to_vec())),
        WaitAction::GiveUp(RedirectError::Malformed)
    ));
    match after_accept(Accepted::Request(b"GET /?code=7 HTTP/1.1\r\n".to_vec())) {
        WaitAction::Finish { response, code } => {
            assert_eq!(code, "7");
            assert_eq!(response, DONE);
        }
        other => panic!("{other:?}"),
    }
    match after_accept(Accepted::Request(b"GET /favicon.ico HTTP/1.1\r\n".to_vec())) {
        WaitAction::Answer { response } => assert_eq!(response, MISSING),
        other => panic!("{other:?}"),
    }
}

#[test]
fn redirect_errors_in_words() {
    assert_eq!(RedirectError::TimedOut.message(), "Timed out waiting for OAuth redirect");
    assert_eq!(RedirectError::Malformed.message(), "malformed HTTP request");
    assert_eq!(RedirectError::BadUrl.message(), "parse redirect URL");
    assert_eq!(RedirectError::Accept.message(), "accept redirect connection");
}

#[test]
fn every_escape_of_ascii_is_decoded() {
    for n in 0u8..128 {
        for code in [format!("a%{n:02x}+b"), format!("a%{n:02X}+b")] {
            let text = format!("GET /oauth2/callback?code={code}&scope=x HTTP/1.1\r\n\r\n");
            let expected = format!("a{} b", n as char);
            assert_eq!(handle_text(&text).unwrap().code, Some(expected));
        }
    }
    let text = "GET /oauth2/callback?code=4%2F0AX%3d%26=&code=5 HTTP/1.1\r\n\r\n";
    assert_eq!(handle_text(text).unwrap().code.as_deref(), Some("4/0AX=&="));
}
