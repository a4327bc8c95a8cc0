use terminal_tube::instant::UtcInstant;
use terminal_tube::login::{
    get_token_installed_app, get_valid_access_token, login_with_client_secrets, AuthorizeFault,
    SaveResult, SecretsRead, TokenError, TokenEvent, TokenRead, TokenRun, TokenStep,
};
use terminal_tube::oauth::{
    ClientError, ClientSecretsFile, InstalledClient, StoredToken, TokenFile, TokenGrant,
};

fn at(seconds: i64) -> UtcInstant {
    UtcInstant { seconds, nanos: 0 }
}

fn client() -> InstalledClient {
    InstalledClient {
        client_id: "id".to_string(),
        client_secret: "secret".to_string(),
        auth_uri: "https://a/auth".to_string(),
        token_uri: "https://a/token".to_string(),
    }
}

fn secrets(read: InstalledClient) -> TokenEvent {
    TokenEvent::Secrets(SecretsRead::Parsed(ClientSecretsFile { installed: read }))
}

fn stored(refresh: Option<&str>, end: Option<i64>, client: Option<InstalledClient>) -> TokenEvent {
    let token = StoredToken {
        access_token: "old".to_string(),
        refresh_token: refresh.map(|t| t.to_string()),
        expires_at_utc: end.map(at),
    };
    let read = TokenRead::Parsed { file: TokenFile::Stored(token), client };
    TokenEvent::Token { read, now: at(1000) }
}

fn granted() -> TokenEvent {
    let grant = TokenGrant {
        access_token: "new".to_string(),
        refresh_token: None,
        expires_in: Some(3600),
    };
    TokenEvent::Granted { grant, now: at(1001) }
}

fn token_read(read: TokenRead) -> TokenEvent {
    TokenEvent::Token { read, now: at(1000) }
}

fn done(run: &TokenRun) -> &StoredToken {
    match &run.step {
        TokenStep::Done { token } => token,
        other => panic!("{other:?}"),
    }
}

fn error(run: &TokenRun) -> TokenError {
    match &run.step {
        TokenStep::Failed { error } => *error,
        other => panic!("{other:?}"),
    }
}

#[test]
fn a_valid_stored_token_is_used() {
    let run = get_valid_access_token();
    assert!(matches!(run.step, TokenStep::LookForToken));
    let run = run.next(TokenEvent::Present(true));
    assert!(matches!(run.step, TokenStep::ReadToken));
    let run = run.next(stored(Some("r"), Some(5000), Some(client())));
    assert_eq!(done(&run).access_token, "old");
    assert_eq!(done(&run).expires_at_utc, Some(at(5000)));
    let run = run.next(TokenEvent::Present(true));
    assert_eq!(done(&run).access_token, "old");
}

#[test]
fn an_old_token_without_refresh_token_is_used() {
    let run = get_valid_access_token().next(TokenEvent::Present(true));
    let run = run.next(stored(None, Some(5), None));
    assert_eq!(done(&run).access_token, "old");
}

#[test]
fn an_old_stored_token_is_renewed() {
    for result in [SaveResult::Saved, SaveResult::Unserializable, SaveResult::Unwritable] {
        let run = get_valid_access_token().next(TokenEvent::Present(true));
        let run = run.next(stored(Some("r"), Some(1060), Some(client())));
        assert_eq!(run.client.as_ref().unwrap().client_secret, "secret");
        match &run.step {
            TokenStep::Refresh { refresh_token } => assert_eq!(refresh_token, "r"),
            other => panic!("{other:?}"),
        }
        let run = run.next(granted());
        match &run.step {
            TokenStep::Save { token, with_client, must_succeed } => {
                assert_eq!(token.access_token, "new");
                assert_eq!(token.refresh_token.as_deref(), Some("r"));
                assert_eq!(token.expires_at_utc, Some(at(4601)));
                assert!(*with_client);
                assert!(!must_succeed);
            }
            other => panic!("{other:?}"),
        }
        let run = run.next(TokenEvent::Save(result));
        assert_eq!(done(&run).access_token, "new");
    }
}

#[test]
fn a_stored_token_that_cannot_be_used() {
    let start = || get_valid_access_token().next(TokenEvent::Present(true));
    assert_eq!(
        error(&get_valid_access_token().next(TokenEvent::Present(false))),
        TokenError::TokenMissing
    );
    assert_eq!(
        error(&start().next(token_read(TokenRead::Unreadable))),
        TokenError::TokenUnreadable
    );
    assert_eq!(
        error(&start().next(token_read(TokenRead::Unparsable))),
        TokenError::TokenUnparsable
    );
    assert_eq!(error(&start().next(stored(Some("r"), Some(0), None))), TokenError::ClientUnknown);
    let mut bad = client();
    bad.token_uri = "nope".to_string();
    assert_eq!(
        error(&start().next(stored(Some("r"), Some(0), Some(bad)))),
        TokenError::Client(ClientError::TokenUri)
    );
    let run = start().next(stored(Some("r"), Some(0), Some(client())));
    assert_eq!(error(&run.next(TokenEvent::NotRefreshed)), TokenError::RefreshFailed);
}

#[test]
fn a_login_asks_the_user_and_stores_the_token() {
    let run = login_with_client_secrets();
    assert!(matches!(run.step, TokenStep::LookForSecrets));
    let run = run.next(TokenEvent::Present(true));
    assert!(matches!(run.step, TokenStep::ReadSecrets));
    let run = run.next(secrets(client()));
    assert!(matches!(run.step, TokenStep::Authorize));
    let run = run.next(granted());
    assert!(matches!(
        run.step,
        TokenStep::Save { with_client: true, must_succeed: true, .. }
    ));
    assert_eq!(run.client.as_ref().unwrap().client_id, "id");
    let run = run.next(TokenEvent::Save(SaveResult::Saved));
    assert_eq!(done(&run).access_token, "new");
    assert_eq!(done(&run).refresh_token, None);
}

#[test]
fn a_login_that_fails() {
    let start = || login_with_client_secrets().next(TokenEvent::Present(true));
    assert_eq!(
        error(&login_with_client_secrets().next(TokenEvent::Present(false))),
        TokenError::SecretsMissing
    );
    assert_eq!(
        error(&start().next(TokenEvent::Secrets(SecretsRead::Unreadable))),
        TokenError::SecretsUnreadable
    );
    assert_eq!(
        error(&start().next(TokenEvent::Secrets(SecretsRead::Unparsable))),
        TokenError::SecretsUnparsable
    );
    let mut bad = client();
    bad.auth_uri = "nope".to_string();
    assert_eq!(
        error(&start().next(secrets(bad))),
        TokenError::Client(ClientError::AuthUri)
    );
    let asked = || start().next(secrets(client()));
    assert_eq!(
        error(&asked().next(TokenEvent::NotAuthorized(AuthorizeFault::Waiting))),
        TokenError::AuthorizationFailed(AuthorizeFault::Waiting)
    );
    let granted = || asked().next(granted());
    assert_eq!(
        error(&granted().next(TokenEvent::Save(SaveResult::Unserializable))),
        TokenError::Unserializable
    );
    assert_eq!(
        error(&granted().next(TokenEvent::Save(SaveResult::Unwritable))),
        TokenError::Unwritable
    );
}

#[test]
fn an_installed_app_uses_what_is_stored() {
    let start = || {
        get_token_installed_app().next(TokenEvent::Present(true)).next(secrets(client()))
    };
    assert!(matches!(start().step, TokenStep::LookForToken));
    let read = || start().next(TokenEvent::Present(true));
    assert_eq!(done(&read().next(stored(Some("r"), Some(9999), None))).access_token, "old");
    let run = read().next(stored(Some("r"), Some(9), None));
    assert!(matches!(run.step, TokenStep::Refresh { .. }));
    let run = run.next(granted());
    assert!(matches!(
        run.step,
        TokenStep::Save { with_client: false, must_succeed: false, .. }
    ));
    assert_eq!(
        error(&read().next(token_read(TokenRead::Unreadable))),
        TokenError::TokenUnreadable
    );
}

#[test]
fn an_installed_app_logs_in_without_a_token() {
    let start = || {
        get_token_installed_app().next(TokenEvent::Present(true)).next(secrets(client()))
    };
    let run = start().next(TokenEvent::Present(false));
    assert!(matches!(run.step, TokenStep::Authorize));
    let run = start().next(TokenEvent::Present(true)).next(token_read(TokenRead::Unparsable));
    assert!(matches!(run.step, TokenStep::Authorize));
    let run = run.next(granted());
    assert!(matches!(
        run.step,
        TokenStep::Save { with_client: false, must_succeed: true, .. }
    ));
}

#[test]
fn what_cannot_come_of_a_step_changes_nothing() {
    let run = get_valid_access_token().next(granted());
    assert!(matches!(run.step, TokenStep::LookForToken));
    let run = run.next(TokenEvent::NotRefreshed).next(TokenEvent::Save(SaveResult::Saved));
    assert!(matches!(run.step, TokenStep::LookForToken));
    assert!(run.client.is_none());
}

#[test]
fn token_errors_in_words() {
    let say = |e: TokenError| e.message("c.json", "t.json");
    assert_eq!(
        say(TokenError::SecretsMissing),
        "`c.json` not found (download an OAuth Desktop client JSON from Google Cloud)"
    );
    assert_eq!(say(TokenError::SecretsUnreadable), "read c.json");
    assert_eq!(say(TokenError::SecretsUnparsable), "parse client_secrets.json");
    assert_eq!(say(TokenError::Client(ClientError::AuthUri)), "invalid auth_uri");
    assert_eq!(say(TokenError::Client(ClientError::TokenUri)), "invalid token_uri");
    assert_eq!(say(TokenError::TokenMissing), "`t.json` not found (log in first)");
    assert_eq!(say(TokenError::TokenUnreadable), "read t.json");
    assert_eq!(say(TokenError::TokenUnparsable), "parse t.json");
    assert_eq!(
        say(TokenError::ClientUnknown),
        "no client in `t.json` to renew the token with (log in again)"
    );
    assert_eq!(say(TokenError::RefreshFailed), "refresh access token");
    assert_eq!(say(TokenError::Unserializable), "serialize token");
    assert_eq!(say(TokenError::Unwritable), "write t.json");
    let faults = [
        (AuthorizeFault::Bind, "bind localhost port"),
        (AuthorizeFault::Nonblocking, "set nonblocking listener"),
        (AuthorizeFault::Address, "get listener addr"),
        (AuthorizeFault::Waiting, "waiting for OAuth redirect"),
        (AuthorizeFault::Exchange, "exchange code for token"),
    ];
    for (fault, text) in faults {
        assert_eq!(say(TokenError::AuthorizationFailed(fault)), text);
    }
}

#[test]
fn the_user_authorizes_once() {
    let start = || {
        get_token_installed_app().next(TokenEvent::Present(true)).next(secrets(client()))
    };
    let run = start().next(TokenEvent::Present(false)).next(granted());
    let first = run.next(TokenEvent::Save(SaveResult::Saved));
    let file = TokenFile::Stored(done(&first).clone());
    let read = TokenRead::Parsed { file, client: None };
    let run = start().next(TokenEvent::Present(true));
    assert!(matches!(run.step, TokenStep::ReadToken));
    let second = run.next(TokenEvent::Token { read, now: at(1002) });
    assert_eq!(done(&second).access_token, done(&first).access_token);
    assert_eq!(done(&second).refresh_token, done(&first).refresh_token);
    assert_eq!(done(&second).expires_at_utc, done(&first).expires_at_utc);
}
