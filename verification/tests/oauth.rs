use terminal_tube::instant::UtcInstant;
use terminal_tube::oauth::{
    authorization_request, can_ask, first_time_authorize, first_token, oauth_client_from_secrets,
    refresh_token, AuthorizationRequest, ClientError, ClientSecretsFile,
    GoogleAuthorizedUserToken, InstalledClient, StoredToken, TokenFile, TokenGrant, SCOPE,
};
use terminal_tube::redirect::redirect_uri_for;
use terminal_tube::web::{find_value, is_url, query_of, MAX_PART_CHARS};

fn at(seconds: i64) -> UtcInstant {
    UtcInstant { seconds, nanos: 500 }
}

fn client(auth_uri: &str, token_uri: &str) -> InstalledClient {
    InstalledClient {
        client_id: "id".to_string(),
        client_secret: "secret".to_string(),
        auth_uri: auth_uri.to_string(),
        token_uri: token_uri.to_string(),
    }
}

fn token(end: Option<UtcInstant>) -> StoredToken {
    StoredToken {
        access_token: "a".to_string(),
        refresh_token: None,
        expires_at_utc: end,
    }
}

fn grant(refresh: Option<&str>, expires_in: Option<u64>) -> TokenGrant {
    TokenGrant {
        access_token: "new".to_string(),
        refresh_token: refresh.map(|t| t.to_string()),
        expires_in,
    }
}

#[test]
fn tokens_run_out_a_minute_early() {
    let now = at(1000);
    assert!(!token(None).is_expired_soon(&now));
    assert!(token(Some(at(900))).is_expired_soon(&now));
    assert!(token(Some(at(1060))).is_expired_soon(&now));
    assert!(!token(Some(at(1061))).is_expired_soon(&now));
    let just_after = UtcInstant { seconds: 1060, nanos: 501 };
    assert!(!token(Some(just_after)).is_expired_soon(&now));
    assert!(token(Some(just_after)).is_expired_soon(&at(1001)));
}

#[test]
fn a_stored_token_stays_as_it_is() {
    let t = TokenFile::Stored(token(Some(at(5)))).into_stored_token();
    assert_eq!(t.access_token, "a");
    assert_eq!(t.refresh_token, None);
    assert_eq!(t.expires_at_utc, Some(at(5)));
}

#[test]
fn a_google_token_is_converted() {
    let google = |expiry: Option<&str>| {
        TokenFile::GoogleAuthorizedUser(GoogleAuthorizedUserToken {
            token: "t".to_string(),
            refresh_token: Some("r".to_string()),
            expiry: expiry.map(|e| e.to_string()),
        })
        .into_stored_token()
    };
    let t = google(Some("2024-05-01T12:00:00Z"));
    assert_eq!(t.access_token, "t");
    assert_eq!(t.refresh_token.as_deref(), Some("r"));
    assert_eq!(t.expires_at_utc, Some(UtcInstant { seconds: 1714564800, nanos: 0 }));
    assert_eq!(google(Some("never")).expires_at_utc, None);
    assert_eq!(google(None).expires_at_utc, None);
}

#[test]
fn a_google_token_with_a_given_end() {
    let g = GoogleAuthorizedUserToken {
        token: "t".to_string(),
        refresh_token: None,
        expiry: None,
    };
    assert_eq!(g.into_stored(Some(at(9))).expires_at_utc, Some(at(9)));
}

#[test]
fn a_first_grant_makes_a_token() {
    let t = first_token(grant(Some("r"), Some(3600)), at(1000));
    assert_eq!(t.access_token, "new");
    assert_eq!(t.refresh_token.as_deref(), Some("r"));
    assert_eq!(t.expires_at_utc, Some(at(4600)));
    let t = first_token(grant(None, None), at(1000));
    assert_eq!(t.refresh_token, None);
    assert_eq!(t.expires_at_utc, None);
}

#[test]
fn a_renewal_keeps_the_refresh_token() {
    let t = refresh_token(grant(None, Some(60)), "old".to_string(), at(1000));
    assert_eq!(t.access_token, "new");
    assert_eq!(t.refresh_token.as_deref(), Some("old"));
    assert_eq!(t.expires_at_utc, Some(at(1060)));
    let t = refresh_token(grant(Some("fresh"), None), "old".to_string(), at(1000));
    assert_eq!(t.refresh_token.as_deref(), Some("fresh"));
    assert_eq!(t.expires_at_utc, None);
}

#[test]
fn a_new_token_is_not_expired() {
    let t = refresh_token(grant(None, Some(61)), "old".to_string(), at(1000));
    assert!(!t.is_expired_soon(&at(1000)));
    assert!(t.is_expired_soon(&at(1001)));
    let t = refresh_token(grant(None, Some(60)), "old".to_string(), at(1000));
    assert!(t.is_expired_soon(&at(1000)));
}

#[test]
fn clients_need_urls() {
    let check = |auth: &str, tok: &str| {
        oauth_client_from_secrets(ClientSecretsFile { installed: client(auth, tok) })
    };
    let ok = check("https://a/auth", "https://a/token").unwrap();
    assert_eq!((ok.client_id.as_str(), ok.client_secret.as_str()), ("id", "secret"));
    assert_eq!((ok.auth_uri.as_str(), ok.token_uri.as_str()), ("https://a/auth", "https://a/token"));
    assert_eq!(check("nope", "https://a").unwrap_err(), ClientError::AuthUri);
    assert_eq!(check("https://a", "nope").unwrap_err(), ClientError::TokenUri);
    assert_eq!(check("nope", "nope").unwrap_err(), ClientError::AuthUri);
}

#[test]
fn the_user_is_asked_for_the_scope() {
    let verifier = "v".repeat(43);
    let c = client("https://accounts.google.com/o/oauth2/auth", "https://x");
    let r = authorization_request(&c, 4321, SCOPE, "state", verifier.clone()).unwrap();
    assert_eq!(r.redirect_uri, "http://127.0.0.1:4321/oauth2/callback");
    assert_eq!(r.verifier, verifier);
    let query = query_of(&r.url).unwrap();
    let value = |name: &str| find_value(&query, name).unwrap();
    assert_eq!(value("client_id"), "id");
    assert_eq!(value("redirect_uri"), "http://127.0.0.1:4321/oauth2/callback");
    assert_eq!(value("scope"), "https://www.googleapis.com/auth/youtube");
    assert_eq!(value("state"), "state");
    assert_eq!(value("response_type"), "code");
    let bad = client("nope", "https://x");
    assert_eq!(
        authorization_request(&bad, 1, SCOPE, "state", verifier).unwrap_err(),
        ClientError::AuthUri
    );
}

#[test]
fn every_port_makes_a_redirect_url() {
    let c = client("https://a", "https://b");
    for port in 0..=u16::MAX {
        assert!(is_url(&redirect_uri_for(port)));
    }
    for port in [0u16, 1, 80, 443, 8080, 65535] {
        let verifier = "v".repeat(128);
        assert!(authorization_request(&c, port, SCOPE, "s", verifier).is_ok());
    }
}

#[test]
fn each_request_has_its_own_state_and_verifier() {
    let c = client("https://accounts.google.com/o/oauth2/auth", "https://x");
    let a = first_time_authorize(&c, 80, SCOPE).unwrap();
    let b = first_time_authorize(&c, 80, SCOPE).unwrap();
    let value = |r: &AuthorizationRequest, name: &str| {
        find_value(&query_of(&r.url).unwrap(), name).unwrap()
    };
    let plain = |s: &str| s.chars().all(|c| c.is_ascii_alphanumeric() || c == '-' || c == '_');
    for r in [&a, &b] {
        assert_eq!(r.verifier.len(), 43);
        assert!(plain(&r.verifier));
        assert_eq!(value(r, "state").len(), 22);
        assert!(plain(&value(r, "state")));
        let again = authorization_request(&c, 80, SCOPE, &value(r, "state"), r.verifier.clone());
        assert_eq!(r.url, again.unwrap().url);
    }
    assert_ne!(a.verifier, b.verifier);
    assert_ne!(value(&a, "state"), value(&b, "state"));
    assert_eq!(
        first_time_authorize(&client("nope", ""), 80, SCOPE).unwrap_err(),
        ClientError::AuthUri
    );
}

#[test]
fn requests_have_a_greatest_length() {
    let mut c = client("https://a", "https://b");
    assert!(can_ask(&c, SCOPE));
    assert!(!can_ask(&c, &"s".repeat(MAX_PART_CHARS + 1)));
    c.client_id = "i".repeat(MAX_PART_CHARS + 1);
    assert!(!can_ask(&c, SCOPE));
    let long = client(&"a".repeat(MAX_PART_CHARS + 1), "https://b");
    assert!(!can_ask(&long, SCOPE));
}
