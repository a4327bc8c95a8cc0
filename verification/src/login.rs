//! How a program comes by a token, step by step. The steps that touch files, the browser or the
//! network are carried out elsewhere; what comes of each decides on the next.
use vstd::prelude::*;

use crate::instant::{can_expire, law_expiry, UtcInstant, MAX_SPAN_SECONDS};
use crate::oauth::{
    client_fault, first_token, granted_token, is_usable, is_usual_time, law_client_fault,
    law_runs_out, oauth_client_from_secrets, refresh_token, renewed_token, runs_out_soon, stored_form,
    ClientError, ClientSecretsFile, InstalledClient, StoredToken, TokenFile, TokenGrant,
    RENEW_EARLY_SECS,
};
use crate::web::url_query;

verus! {

/// What a token is wanted for.
#[derive(Debug, Clone, Copy, PartialEq, Eq, Structural)]
pub enum Flow {
    /// To use the stored one, or else to log in.
    InstalledApp,
    /// To log in.
    Login,
    /// To use the stored one.
    Stored,
}

/// What to do next.
#[derive(Debug)]
pub enum TokenStep {
    /// See whether the file of the client is there.
    LookForSecrets,
    /// Read the file of the client.
    ReadSecrets,
    /// See whether the file of the token is there.
    LookForToken,
    /// Read the file of the token.
    ReadToken,
    /// Have the token renewed.
    Refresh { refresh_token: String },
    /// Have the user authorize the program.
    Authorize,
    /// Store the token, alone or together with the client.
    Save { token: StoredToken, with_client: bool, must_succeed: bool },
    /// Use the token.
    Done { token: StoredToken },
    /// Give up.
    Failed { error: TokenError },
}

/// Why there is no token.
#[derive(Debug, Clone, Copy, PartialEq, Eq, Structural)]
pub enum TokenError {
    SecretsMissing,
    SecretsUnreadable,
    SecretsUnparsable,
    Client(ClientError),
    TokenMissing,
    TokenUnreadable,
    TokenUnparsable,
    ClientUnknown,
    RefreshFailed,
    AuthorizationFailed(AuthorizeFault),
    Unserializable,
    Unwritable,
}

/// What kept the user from authorizing the program.
#[derive(Debug, Clone, Copy, PartialEq, Eq, Structural)]
pub enum AuthorizeFault {
    Bind,
    Nonblocking,
    Address,
    Waiting,
    Exchange,
}

/// What came of reading the file of the client.
#[derive(Debug)]
pub enum SecretsRead {
    Unreadable,
    Unparsable,
    Parsed(ClientSecretsFile),
}

/// What came of reading the file of the token. The client is known if it was stored with it.
#[derive(Debug)]
pub enum TokenRead {
    Unreadable,
    Unparsable,
    Parsed { file: TokenFile, client: Option<InstalledClient> },
}

/// What came of storing the token.
#[derive(Debug, Clone, Copy, PartialEq, Eq, Structural)]
pub enum SaveResult {
    Saved,
    Unserializable,
    Unwritable,
}

/// What came of a step.
#[derive(Debug)]
pub enum TokenEvent {
    Present(bool),
    Secrets(SecretsRead),
    Token { read: TokenRead, now: UtcInstant },
    Granted { grant: TokenGrant, now: UtcInstant },
    NotRefreshed,
    NotAuthorized(AuthorizeFault),
    Save(SaveResult),
}

/// Where the search for a token stands. The client is set once it is needed.
#[derive(Debug)]
pub struct TokenRun {
    pub flow: Flow,
    pub client: Option<InstalledClient>,
    pub step: TokenStep,
}

/// The search before its first step.
pub open spec fn start(flow: Flow) -> TokenRun {
    TokenRun {
        flow,
        client: None,
        step: if flow == Flow::Stored {
            TokenStep::LookForToken
        } else {
            TokenStep::LookForSecrets
        },
    }
}

/// The search, about to do something else.
pub open spec fn with_step(run: TokenRun, step: TokenStep) -> TokenRun {
    TokenRun { step, ..run }
}

/// The search, given up.
pub open spec fn failed(run: TokenRun, error: TokenError) -> TokenRun {
    with_step(run, TokenStep::Failed { error })
}

/// The search, once a client is known, about to do something, unless the client is unusable.
pub open spec fn with_client(run: TokenRun, client: InstalledClient, step: TokenStep) -> TokenRun {
    match client_fault(client) {
        Some(e) => failed(run, TokenError::Client(e)),
        None => TokenRun { client: Some(client), step, ..run },
    }
}

/// After reading the file of the client.
pub open spec fn after_secrets(run: TokenRun, read: SecretsRead) -> TokenRun {
    match read {
        SecretsRead::Unreadable => failed(run, TokenError::SecretsUnreadable),
        SecretsRead::Unparsable => failed(run, TokenError::SecretsUnparsable),
        SecretsRead::Parsed(file) => with_client(
            run,
            file.installed,
            if run.flow == Flow::Login {
                TokenStep::Authorize
            } else {
                TokenStep::LookForToken
            },
        ),
    }
}

/// Where there is no token to use: log in, unless only a stored token will do.
pub open spec fn without_token(run: TokenRun, error: TokenError) -> TokenRun {
    if run.flow == Flow::Stored {
        failed(run, error)
    } else {
        with_step(run, TokenStep::Authorize)
    }
}

/// With a token from its file: it is renewed if it runs out soon and can be renewed, and used as
/// it is otherwise.
pub open spec fn with_token(
    run: TokenRun,
    token: StoredToken,
    client: Option<InstalledClient>,
    now: UtcInstant,
) -> TokenRun {
    match token.refresh_token {
        Some(t) => if runs_out_soon(token, now) {
            let renew = TokenStep::Refresh { refresh_token: t };
            if run.flow == Flow::Stored {
                match client {
                    Some(c) => with_client(run, c, renew),
                    None => failed(run, TokenError::ClientUnknown),
                }
            } else {
                with_step(run, renew)
            }
        } else {
            with_step(run, TokenStep::Done { token })
        },
        None => with_step(run, TokenStep::Done { token }),
    }
}

/// After reading the file of the token. One that is not a token counts as none.
pub open spec fn after_token(run: TokenRun, read: TokenRead, now: UtcInstant) -> TokenRun {
    match read {
        TokenRead::Unreadable => failed(run, TokenError::TokenUnreadable),
        TokenRead::Unparsable => without_token(run, TokenError::TokenUnparsable),
        TokenRead::Parsed { file, client } => with_token(run, stored_form(file), client, now),
    }
}

/// After storing the token. A renewed token is used even where it could not be stored.
pub open spec fn after_save(
    run: TokenRun,
    token: StoredToken,
    must_succeed: bool,
    result: SaveResult,
) -> TokenRun {
    if result == SaveResult::Unserializable && must_succeed {
        failed(run, TokenError::Unserializable)
    } else if result == SaveResult::Unwritable && must_succeed {
        failed(run, TokenError::Unwritable)
    } else {
        with_step(run, TokenStep::Done { token })
    }
}

/// Whether the client is stored with the token, so that it can be renewed without the file of
/// the client.
pub open spec fn stores_client(flow: Flow) -> bool {
    flow != Flow::InstalledApp
}

/// The search after what came of its step. What cannot come of the step changes nothing.
pub open spec fn after(run: TokenRun, event: TokenEvent) -> TokenRun {
    match (run.step, event) {
        (TokenStep::LookForSecrets, TokenEvent::Present(found)) => if found {
            with_step(run, TokenStep::ReadSecrets)
        } else {
            failed(run, TokenError::SecretsMissing)
        },
        (TokenStep::ReadSecrets, TokenEvent::Secrets(read)) => after_secrets(run, read),
        (TokenStep::LookForToken, TokenEvent::Present(found)) => if found {
            with_step(run, TokenStep::ReadToken)
        } else {
            without_token(run, TokenError::TokenMissing)
        },
        (TokenStep::ReadToken, TokenEvent::Token { read, now }) => after_token(run, read, now),
        (TokenStep::Refresh { refresh_token }, TokenEvent::Granted { grant, now }) => with_step(
            run,
            TokenStep::Save {
                token: renewed_token(grant, refresh_token, now),
                with_client: stores_client(run.flow),
                must_succeed: false,
            },
        ),
        (TokenStep::Refresh { .. }, TokenEvent::NotRefreshed) => failed(
            run,
            TokenError::RefreshFailed,
        ),
        (TokenStep::Authorize, TokenEvent::Granted { grant, now }) => with_step(
            run,
            TokenStep::Save {
                token: granted_token(grant, now),
                with_client: stores_client(run.flow),
                must_succeed: true,
            },
        ),
        (TokenStep::Authorize, TokenEvent::NotAuthorized(fault)) => failed(
            run,
            TokenError::AuthorizationFailed(fault),
        ),
        (TokenStep::Save { token, must_succeed, .. }, TokenEvent::Save(result)) => after_save(
            run,
            token,
            must_succeed,
            result,
        ),
        _ => run,
    }
}

/// Whether the times in an event are such that expiries can be reckoned.
pub open spec fn is_timely(event: TokenEvent) -> bool {
    match event {
        TokenEvent::Token { now, .. } => is_usual_time(now),
        TokenEvent::Granted { grant, now } => now.is_clock_time() && can_expire(
            now,
            grant.expires_in,
        ),
        _ => true,
    }
}

/// Begins to look for a token to use, stored or new.
pub fn get_token_installed_app() -> (r: TokenRun)
    ensures
        r == start(Flow::InstalledApp),
{
    TokenRun { flow: Flow::InstalledApp, client: None, step: TokenStep::LookForSecrets }
}

/// Begins to log in.
pub fn login_with_client_secrets() -> (r: TokenRun)
    ensures
        r == start(Flow::Login),
{
    TokenRun { flow: Flow::Login, client: None, step: TokenStep::LookForSecrets }
}

/// Begins to look for a stored token to use.
pub fn get_valid_access_token() -> (r: TokenRun)
    ensures
        r == start(Flow::Stored),
{
    TokenRun { flow: Flow::Stored, client: None, step: TokenStep::LookForToken }
}

impl TokenRun {
    fn fail(self, error: TokenError) -> (r: TokenRun)
        ensures
            r == failed(self, error),
    {
        TokenRun { flow: self.flow, client: self.client, step: TokenStep::Failed { error } }
    }

    fn go(self, step: TokenStep) -> (r: TokenRun)
        ensures
            r == with_step(self, step),
    {
        TokenRun { flow: self.flow, client: self.client, step }
    }

    fn adopt(self, client: InstalledClient, step: TokenStep) -> (r: TokenRun)
        ensures
            r == with_client(self, client, step),
    {
        match oauth_client_from_secrets(ClientSecretsFile { installed: client }) {
            Ok(client) => TokenRun { flow: self.flow, client: Some(client), step },
            Err(e) => self.fail(TokenError::Client(e)),
        }
    }

    fn on_secrets(self, read: SecretsRead) -> (r: TokenRun)
        ensures
            r == after_secrets(self, read),
    {
        match read {
            SecretsRead::Unreadable => self.fail(TokenError::SecretsUnreadable),
            SecretsRead::Unparsable => self.fail(TokenError::SecretsUnparsable),
            SecretsRead::Parsed(file) => {
                let step = if self.flow == Flow::Login {
                    TokenStep::Authorize
                } else {
                    TokenStep::LookForToken
                };
                self.adopt(file.installed, step)
            },
        }
    }

    fn on_no_token(self, error: TokenError) -> (r: TokenRun)
        ensures
            r == without_token(self, error),
    {
        if self.flow == Flow::Stored {
            self.fail(error)
        } else {
            self.go(TokenStep::Authorize)
        }
    }

    fn on_stored_token(
        self,
        token: StoredToken,
        client: Option<InstalledClient>,
        now: UtcInstant,
    ) -> (r: TokenRun)
        requires
            is_usual_time(now),
        ensures
            r == with_token(self, token, client, now),
    {
        let renewable = match &token.refresh_token {
            Some(t) => Some(t.clone()),
            None => None,
        };
        match renewable {
            Some(t) if token.is_expired_soon(&now) => {
                let renew = TokenStep::Refresh { refresh_token: t };
                if self.flow == Flow::Stored {
                    match client {
                        Some(c) => self.adopt(c, renew),
                        None => self.fail(TokenError::ClientUnknown),
                    }
                } else {
                    self.go(renew)
                }
            },
            _ => self.go(TokenStep::Done { token }),
        }
    }

    fn on_token(self, read: TokenRead, now: UtcInstant) -> (r: TokenRun)
        requires
            is_usual_time(now),
        ensures
            r == after_token(self, read, now),
    {
        match read {
            TokenRead::Unreadable => self.fail(TokenError::TokenUnreadable),
            TokenRead::Unparsable => self.on_no_token(TokenError::TokenUnparsable),
            TokenRead::Parsed { file, client } => self.on_stored_token(
                file.into_stored_token(),
                client,
                now,
            ),
        }
    }

    /// Takes in what came of the step.
    pub fn next(self, event: TokenEvent) -> (r: TokenRun)
        requires
            is_timely(event),
        ensures
            r == after(self, event),
    {
        let TokenRun { flow, client, step } = self;
        match (step, event) {
            (TokenStep::LookForSecrets, TokenEvent::Present(found)) => {
                let run = TokenRun { flow, client, step: TokenStep::LookForSecrets };
                if found {
                    run.go(TokenStep::ReadSecrets)
                } else {
                    run.fail(TokenError::SecretsMissing)
                }
            },
            (TokenStep::ReadSecrets, TokenEvent::Secrets(read)) => {
                TokenRun { flow, client, step: TokenStep::ReadSecrets }.on_secrets(read)
            },
            (TokenStep::LookForToken, TokenEvent::Present(found)) => {
                let run = TokenRun { flow, client, step: TokenStep::LookForToken };
                if found {
                    run.go(TokenStep::ReadToken)
                } else {
                    run.on_no_token(TokenError::TokenMissing)
                }
            },
            (TokenStep::ReadToken, TokenEvent::Token { read, now }) => {
                TokenRun { flow, client, step: TokenStep::ReadToken }.on_token(read, now)
            },
            (TokenStep::Refresh { refresh_token: t }, TokenEvent::Granted { grant, now }) => {
                let token = refresh_token(grant, t, now);
                let with_client = flow != Flow::InstalledApp;
                let step = TokenStep::Save { token, with_client, must_succeed: false };
                TokenRun { flow, client, step }
            },
            (TokenStep::Refresh { .. }, TokenEvent::NotRefreshed) => {
                let step = TokenStep::Failed { error: TokenError::RefreshFailed };
                TokenRun { flow, client, step }
            },
            (TokenStep::Authorize, TokenEvent::Granted { grant, now }) => {
                let token = first_token(grant, now);
                let with_client = flow != Flow::InstalledApp;
                let step = TokenStep::Save { token, with_client, must_succeed: true };
                TokenRun { flow, client, step }
            },
            (TokenStep::Authorize, TokenEvent::NotAuthorized(fault)) => {
                let step = TokenStep::Failed { error: TokenError::AuthorizationFailed(fault) };
                TokenRun { flow, client, step }
            },
            (TokenStep::Save { token, must_succeed, .. }, TokenEvent::Save(result)) => {
                let step = match result {
                    SaveResult::Unserializable if must_succeed => TokenStep::Failed {
                        error: TokenError::Unserializable,
                    },
                    SaveResult::Unwritable if must_succeed => TokenStep::Failed {
                        error: TokenError::Unwritable,
                    },
                    _ => TokenStep::Done { token },
                };
                TokenRun { flow, client, step }
            },
            (step, _) => TokenRun { flow, client, step },
        }
    }
}

impl AuthorizeFault {
    /// What went wrong, in words.
    pub open spec fn text(self) -> Seq<char> {
        match self {
            AuthorizeFault::Bind => "bind localhost port"@,
            AuthorizeFault::Nonblocking => "set nonblocking listener"@,
            AuthorizeFault::Address => "get listener addr"@,
            AuthorizeFault::Waiting => "waiting for OAuth redirect"@,
            AuthorizeFault::Exchange => "exchange code for token"@,
        }
    }

    fn message(&self) -> (r: String)
        ensures
            r@ == self.text(),
    {
        match self {
            AuthorizeFault::Bind => "bind localhost port".to_string(),
            AuthorizeFault::Nonblocking => "set nonblocking listener".to_string(),
            AuthorizeFault::Address => "get listener addr".to_string(),
            AuthorizeFault::Waiting => "waiting for OAuth redirect".to_string(),
            AuthorizeFault::Exchange => "exchange code for token".to_string(),
        }
    }
}

impl TokenError {
    /// What went wrong, in words, given the names of the two files.
    pub open spec fn text(self, secrets: Seq<char>, token: Seq<char>) -> Seq<char> {
        match self {
            TokenError::SecretsMissing => "`"@ + secrets
                + "` not found (download an OAuth Desktop client JSON from Google Cloud)"@,
            TokenError::SecretsUnreadable => "read "@ + secrets,
            TokenError::SecretsUnparsable => "parse client_secrets.json"@,
            TokenError::Client(ClientError::AuthUri) => "invalid auth_uri"@,
            TokenError::Client(ClientError::TokenUri) => "invalid token_uri"@,
            TokenError::TokenMissing => "`"@ + token + "` not found (log in first)"@,
            TokenError::TokenUnreadable => "read "@ + token,
            TokenError::TokenUnparsable => "parse "@ + token,
            TokenError::ClientUnknown => "no client in `"@ + token
                + "` to renew the token with (log in again)"@,
            TokenError::RefreshFailed => "refresh access token"@,
            TokenError::AuthorizationFailed(fault) => fault.text(),
            TokenError::Unserializable => "serialize token"@,
            TokenError::Unwritable => "write "@ + token,
        }
    }

    /// What went wrong, in words, given the names of the two files.
    pub fn message(&self, secrets: &str, token: &str) -> (r: String)
        ensures
            r@ == self.text(secrets@, token@),
    {
        match self {
            TokenError::SecretsMissing => around(
                "`",
                secrets,
                "` not found (download an OAuth Desktop client JSON from Google Cloud)",
            ),
            TokenError::SecretsUnreadable => before("read ", secrets),
            TokenError::SecretsUnparsable => "parse client_secrets.json".to_string(),
            TokenError::Client(ClientError::AuthUri) => "invalid auth_uri".to_string(),
            TokenError::Client(ClientError::TokenUri) => "invalid token_uri".to_string(),
            TokenError::TokenMissing => around("`", token, "` not found (log in first)"),
            TokenError::TokenUnreadable => before("read ", token),
            TokenError::TokenUnparsable => before("parse ", token),
            TokenError::ClientUnknown => around(
                "no client in `",
                token,
                "` to renew the token with (log in again)",
            ),
            TokenError::RefreshFailed => "refresh access token".to_string(),
            TokenError::AuthorizationFailed(fault) => fault.message(),
            TokenError::Unserializable => "serialize token".to_string(),
            TokenError::Unwritable => before("write ", token),
        }
    }
}

fn before(head: &str, s: &str) -> (r: String)
    ensures
        r@ == head@ + s@,
{
    let mut r = head.to_string();
    r.append(s);
    r
}

fn around(head: &str, s: &str, tail: &str) -> (r: String)
    ensures
        r@ == head@ + s@ + tail@,
{
    let mut r = before(head, s);
    r.append(tail);
    r
}

/// The search after the outcomes of several steps.
pub open spec fn after_all(run: TokenRun, events: Seq<TokenEvent>) -> TokenRun
    decreases events.len(),
{
    if events.len() == 0 {
        run
    } else {
        after(after_all(run, events.drop_last()), events.last())
    }
}

/// Whether a search is about to use a client.
pub open spec fn needs_client(run: TokenRun) -> bool {
    ||| run.step is Refresh
    ||| run.step is Authorize
    ||| run.step is Save
}

/// What holds of every search: a client is known and usable before it is needed, only a search
/// for a stored token goes without the file of the client, and each of the three goes its own
/// way.
pub open spec fn is_sound(run: TokenRun) -> bool {
    &&& run.client matches Some(client) ==> is_usable(client)
    &&& needs_client(run) ==> run.client is Some
    &&& match run.flow {
        Flow::InstalledApp => (run.step is LookForToken || run.step is ReadToken)
            ==> run.client is Some,
        Flow::Login => !(run.step is LookForToken || run.step is ReadToken
            || run.step is Refresh),
        Flow::Stored => !(run.step is LookForSecrets || run.step is ReadSecrets
            || run.step is Authorize),
    }
    &&& run.step matches TokenStep::Save { token, with_client, must_succeed } ==> {
        &&& with_client == stores_client(run.flow)
        &&& must_succeed || run.flow != Flow::Login && token.refresh_token is Some
    }
}

proof fn lemma_sound_step(run: TokenRun, event: TokenEvent)
    requires
        is_sound(run),
    ensures
        is_sound(after(run, event)),
        after(run, event).flow == run.flow,
{
}

/// Whatever comes of its steps, a search refreshes a token, asks the user or stores a token only
/// with a usable client, never asks the user where only a stored token will do, and never looks
/// at the file of the token when it is to log in.
pub proof fn law_sound(flow: Flow, events: Seq<TokenEvent>)
    ensures
        is_sound(after_all(start(flow), events)),
        after_all(start(flow), events).flow == flow,
    decreases events.len(),
{
    if events.len() > 0 {
        law_sound(flow, events.drop_last());
        lemma_sound_step(after_all(start(flow), events.drop_last()), events.last());
    }
}

/// How many steps a search has at most before it.
pub open spec fn steps_left(run: TokenRun) -> nat {
    match run.step {
        TokenStep::LookForSecrets => 6,
        TokenStep::ReadSecrets => 5,
        TokenStep::LookForToken => 4,
        TokenStep::ReadToken => 3,
        TokenStep::Refresh { .. } => 2,
        TokenStep::Authorize => 2,
        TokenStep::Save { .. } => 1,
        TokenStep::Done { .. } => 0,
        TokenStep::Failed { .. } => 0,
    }
}

/// Whether an event can come of the step of a search.
pub open spec fn can_come(run: TokenRun, event: TokenEvent) -> bool {
    match run.step {
        TokenStep::LookForSecrets => event is Present,
        TokenStep::ReadSecrets => event is Secrets,
        TokenStep::LookForToken => event is Present,
        TokenStep::ReadToken => event is Token,
        TokenStep::Refresh { .. } => event is Granted || event is NotRefreshed,
        TokenStep::Authorize => event is Granted || event is NotAuthorized,
        TokenStep::Save { .. } => event is Save,
        TokenStep::Done { .. } => false,
        TokenStep::Failed { .. } => false,
    }
}

/// Each step brings a search closer to its end, and what cannot come of a step changes nothing.
pub proof fn law_progress(run: TokenRun, event: TokenEvent)
    ensures
        can_come(run, event) ==> steps_left(after(run, event)) < steps_left(run),
        !can_come(run, event) ==> after(run, event) == run,
{
}

/// A token that does not run out soon, or cannot be renewed, is used as it is stored.
pub proof fn law_fresh_token(
    run: TokenRun,
    file: TokenFile,
    client: Option<InstalledClient>,
    now: UtcInstant,
)
    requires
        run.step is ReadToken,
        !runs_out_soon(stored_form(file), now) || stored_form(file).refresh_token is None,
    ensures
        after(run, TokenEvent::Token { read: TokenRead::Parsed { file, client }, now })
            == with_step(run, TokenStep::Done { token: stored_form(file) }),
{
}

/// A token that was just granted or renewed for longer than the time by which tokens are renewed
/// early does not run out soon.
pub proof fn law_new_token_is_fresh(grant: TokenGrant, previous: String, now: UtcInstant)
    requires
        now.is_clock_time(),
        can_expire(now, grant.expires_in),
        grant.expires_in matches Some(seconds) ==> RENEW_EARLY_SECS < seconds <= MAX_SPAN_SECONDS,
    ensures
        !runs_out_soon(granted_token(grant, now), now),
        !runs_out_soon(renewed_token(grant, previous, now), now),
{
}

/// A token that runs out soon still does so at any later moment.
pub proof fn law_stays_old(token: StoredToken, now: UtcInstant, then: UtcInstant)
    requires
        is_usual_time(now),
        is_usual_time(then),
        now.no_later_than(then),
        runs_out_soon(token, now),
    ensures
        runs_out_soon(token, then),
{
}

/// A renewed token can be renewed again.
pub proof fn law_renewable(grant: TokenGrant, previous: String, now: UtcInstant)
    ensures
        renewed_token(grant, previous, now).refresh_token is Some,
        grant.refresh_token is None ==> renewed_token(grant, previous, now).refresh_token == Some(
            previous,
        ),
{
}

/// The events of a search that finds the file of the client and, in its own file, a token.
pub open spec fn stored_events(
    secrets: ClientSecretsFile,
    token: StoredToken,
    client: Option<InstalledClient>,
    now: UtcInstant,
) -> Seq<TokenEvent> {
    seq![
        TokenEvent::Present(true),
        TokenEvent::Secrets(SecretsRead::Parsed(secrets)),
        TokenEvent::Present(true),
        TokenEvent::Token {
            read: TokenRead::Parsed { file: TokenFile::Stored(token), client },
            now,
        },
    ]
}

/// The user authorizes once: a search that asked the user ends with the token that it stored, and
/// the next one, where the file reads as what was stored, ends with the same token without asking
/// the user, renewing or storing anything, as long as the token does not run out soon.
pub proof fn law_authorize_once(
    events: Seq<TokenEvent>,
    token: StoredToken,
    with_client: bool,
    secrets: ClientSecretsFile,
    client: Option<InstalledClient>,
    now: UtcInstant,
)
    requires
        after_all(start(Flow::InstalledApp), events).step == (TokenStep::Save {
            token,
            with_client,
            must_succeed: true,
        }),
        is_usable(secrets.installed),
        !runs_out_soon(token, now),
    ensures
        forall|result: SaveResult|
            (#[trigger] after(
                after_all(start(Flow::InstalledApp), events),
                TokenEvent::Save(result),
            )).step == if result == SaveResult::Saved {
                TokenStep::Done { token }
            } else if result == SaveResult::Unwritable {
                TokenStep::Failed { error: TokenError::Unwritable }
            } else {
                TokenStep::Failed { error: TokenError::Unserializable }
            },
        after_all(start(Flow::InstalledApp), stored_events(secrets, token, client, now)).step == (
        TokenStep::Done { token }),
        forall|n: int|
            0 <= n <= 4 ==> !needs_client(
                #[trigger] after_all(
                    start(Flow::InstalledApp),
                    stored_events(secrets, token, client, now).take(n),
                ),
            ),
{
    let begin = start(Flow::InstalledApp);
    let all = stored_events(secrets, token, client, now);
    lemma_after_take(begin, all, 0);
    lemma_after_take(begin, all, 1);
    lemma_after_take(begin, all, 2);
    lemma_after_take(begin, all, 3);
    assert(all.take(0) == Seq::<TokenEvent>::empty());
    assert(all.take(4) == all);
    assert forall|n: int| 0 <= n <= 4 implies !needs_client(
        #[trigger] after_all(begin, all.take(n)),
    ) by {
        assert(n == 0 || n == 1 || n == 2 || n == 3 || n == 4);
    }
}

proof fn lemma_after_take(run: TokenRun, events: Seq<TokenEvent>, n: int)
    requires
        0 <= n < events.len(),
    ensures
        after_all(run, events.take(n + 1)) == after(after_all(run, events.take(n)), events[n]),
{
    assert(events.take(n + 1).drop_last() == events.take(n));
}

/// A login ends with a token only if the token was stored, together with a usable client.
pub proof fn law_login_is_stored(events: Seq<TokenEvent>, event: TokenEvent)
    ensures
        ({
            let before = after_all(start(Flow::Login), events);
            !(before.step is Done) && after(before, event).step is Done ==> {
                &&& event == TokenEvent::Save(SaveResult::Saved)
                &&& before.step is Save
                &&& before.step->with_client
                &&& before.client matches Some(client) && is_usable(client)
                &&& before.step->Save_token == after(before, event).step->Done_token
            }
        }),
{
    law_sound(Flow::Login, events);
}

/// What a login stores serves a later search for the stored token: it ends with that token while
/// it does not run out soon, and renews it with the client and the refresh token from then on.
pub proof fn law_login_serves(
    client: InstalledClient,
    token: StoredToken,
    now: UtcInstant,
)
    requires
        is_usable(client),
    ensures
        ({
            let read = TokenRead::Parsed { file: TokenFile::Stored(token), client: Some(client) };
            let run = after_all(
                start(Flow::Stored),
                seq![TokenEvent::Present(true), TokenEvent::Token { read, now }],
            );
            if !runs_out_soon(token, now) {
                run.step == TokenStep::Done { token }
            } else {
                match token.refresh_token {
                    Some(t) => run.client == Some(client) && run.step == TokenStep::Refresh {
                        refresh_token: t,
                    },
                    None => run.step == TokenStep::Done { token },
                }
            }
        }),
{
    let read = TokenRead::Parsed { file: TokenFile::Stored(token), client: Some(client) };
    let events = seq![TokenEvent::Present(true), TokenEvent::Token { read, now }];
    lemma_after_take(start(Flow::Stored), events, 0);
    lemma_after_take(start(Flow::Stored), events, 1);
    assert(events.take(0) == Seq::<TokenEvent>::empty());
    assert(events.take(2) == events);
}

/// Each search begins with no client: that for a stored token at the file of the token, the others
/// at the file of the client.
pub proof fn law_first_step(run: TokenRun)
    ensures
        run == start(Flow::Stored) ==> run.step is LookForToken && run.flow == Flow::Stored,
        run == start(Flow::Login) ==> run.step is LookForSecrets && run.flow == Flow::Login,
        run == start(Flow::InstalledApp) ==> run.step is LookForSecrets && run.flow
            == Flow::InstalledApp,
        run == start(run.flow) ==> run.client is None,
{
}

/// A file that is there is read. Without the file of the client the search fails; without that of
/// the token the user is asked, unless only a stored token will do.
pub proof fn law_look(run: TokenRun, found: bool, next: TokenRun)
    requires
        next == after(run, TokenEvent::Present(found)),
    ensures
        next.flow == run.flow,
        next.client == run.client,
        run.step is LookForSecrets && found ==> next.step is ReadSecrets,
        run.step is LookForSecrets && !found ==> next.step == (TokenStep::Failed {
            error: TokenError::SecretsMissing,
        }),
        run.step is LookForToken && found ==> next.step is ReadToken,
        run.step is LookForToken && !found && run.flow != Flow::Stored ==> next.step is Authorize,
        run.step is LookForToken && !found && run.flow == Flow::Stored ==> next.step == (
        TokenStep::Failed { error: TokenError::TokenMissing }),
{
}

/// The client in its file is taken as it is, if both of its endpoints are URLs; then a login asks
/// the user, and any other search looks for the token.
pub proof fn law_secrets_read(run: TokenRun, read: SecretsRead, next: TokenRun)
    requires
        run.step is ReadSecrets,
        next == after(run, TokenEvent::Secrets(read)),
    ensures
        next.flow == run.flow,
        match read {
            SecretsRead::Unreadable => next.step == (TokenStep::Failed {
                error: TokenError::SecretsUnreadable,
            }),
            SecretsRead::Unparsable => next.step == (TokenStep::Failed {
                error: TokenError::SecretsUnparsable,
            }),
            SecretsRead::Parsed(file) => {
                let known = url_query(file.installed.auth_uri@) is Some && url_query(
                    file.installed.token_uri@,
                ) is Some;
                &&& known ==> next.client == Some(file.installed)
                &&& known && run.flow == Flow::Login ==> next.step is Authorize
                &&& known && run.flow != Flow::Login ==> next.step is LookForToken
                &&& !known ==> next.client == run.client && next.step == (TokenStep::Failed {
                    error: TokenError::Client(
                        if url_query(file.installed.auth_uri@) is None {
                            ClientError::AuthUri
                        } else {
                            ClientError::TokenUri
                        },
                    ),
                })
            },
        },
{
    if let SecretsRead::Parsed(file) = read {
        law_client_fault(file.installed);
    }
}

/// A file that cannot be read ends the search. One that holds no token counts as none.
pub proof fn law_no_token_read(run: TokenRun, read: TokenRead, now: UtcInstant, next: TokenRun)
    requires
        run.step is ReadToken,
        read is Unreadable || read is Unparsable,
        next == after(run, TokenEvent::Token { read, now }),
    ensures
        next.flow == run.flow,
        next.client == run.client,
        read is Unreadable ==> next.step == (TokenStep::Failed {
            error: TokenError::TokenUnreadable,
        }),
        read is Unparsable && run.flow == Flow::Stored ==> next.step == (TokenStep::Failed {
            error: TokenError::TokenUnparsable,
        }),
        read is Unparsable && run.flow != Flow::Stored ==> next.step is Authorize,
{
}

/// A stored token is renewed, with the refresh token stored, exactly if it has one and ends within
/// a minute, or has ended; otherwise it is used as it is. Where the client was not read from its
/// own file, it is the one stored with the token.
pub proof fn law_token_read(
    run: TokenRun,
    file: TokenFile,
    token: StoredToken,
    client: Option<InstalledClient>,
    now: UtcInstant,
    next: TokenRun,
)
    requires
        run.step is ReadToken,
        is_usual_time(now),
        token == stored_form(file),
        next == after(
            run,
            TokenEvent::Token { read: TokenRead::Parsed { file, client }, now },
        ),
    ensures
        next.flow == run.flow,
        ({
            let due = token.expires_at_utc matches Some(end) && (end.seconds < now.seconds + 60 || (
            end.seconds == now.seconds + 60 && end.nanos <= now.nanos));
            match token.refresh_token {
                Some(t) => {
                    &&& !due ==> next.client == run.client && next.step == (TokenStep::Done {
                        token,
                    })
                    &&& due && run.flow != Flow::Stored ==> next.client == run.client && next.step
                        == (TokenStep::Refresh { refresh_token: t })
                    &&& due && run.flow == Flow::Stored ==> match client {
                        None => next.step == (TokenStep::Failed {
                            error: TokenError::ClientUnknown,
                        }),
                        Some(c) => {
                            let known = url_query(c.auth_uri@) is Some && url_query(
                                c.token_uri@,
                            ) is Some;
                            &&& known ==> next.client == Some(c) && next.step == (
                            TokenStep::Refresh { refresh_token: t })
                            &&& !known ==> next.step == (TokenStep::Failed {
                                error: TokenError::Client(
                                    if url_query(c.auth_uri@) is None {
                                        ClientError::AuthUri
                                    } else {
                                        ClientError::TokenUri
                                    },
                                ),
                            })
                        },
                    }
                },
                None => next.client == run.client && next.step == (TokenStep::Done { token }),
            }
        }),
{
    law_runs_out(token, now);
    if let Some(c) = client {
        law_client_fault(c);
    }
}

/// What is granted is stored: the access token always as granted; the refresh token as granted
/// or, where a renewal grants none, the one it was renewed with; the end as granted. What the user authorized has to
/// be stored; what was renewed need not. All but a search by an installed app store the client.
pub proof fn law_granted(run: TokenRun, grant: TokenGrant, now: UtcInstant, next: TokenRun)
    requires
        run.step is Refresh || run.step is Authorize,
        next == after(run, TokenEvent::Granted { grant, now }),
        is_timely(TokenEvent::Granted { grant, now }),
    ensures
        next.flow == run.flow,
        next.client == run.client,
        next.step matches TokenStep::Save { token, with_client, must_succeed } && {
            &&& token.access_token@ == grant.access_token@
            &&& grant.refresh_token matches Some(t) ==> (token.refresh_token matches Some(kept)
                && kept@ == t@)
            &&& run.step matches TokenStep::Refresh { refresh_token: t } ==> (
            grant.refresh_token is None ==> (token.refresh_token matches Some(kept) && kept@ == t@))
            &&& run.step is Authorize && grant.refresh_token is None ==> token.refresh_token is None
            &&& grant.expires_in is None ==> token.expires_at_utc is None
            &&& grant.expires_in matches Some(seconds) ==> (token.expires_at_utc matches Some(end)
                && {
                &&& end.seconds - now.seconds == if seconds <= 9223372036854775 {
                    seconds as int
                } else {
                    0
                }
                &&& end.nanos == now.nanos
            })
            &&& must_succeed <==> run.step is Authorize
            &&& with_client <==> run.flow != Flow::InstalledApp
        },
{
    law_expiry(now, grant.expires_in);
}

/// What is not granted ends the search, with the reason.
pub proof fn law_not_granted(run: TokenRun, fault: AuthorizeFault)
    ensures
        run.step is Authorize ==> after(run, TokenEvent::NotAuthorized(fault)).step == (
        TokenStep::Failed { error: TokenError::AuthorizationFailed(fault) }),
        run.step is Refresh ==> after(run, TokenEvent::NotRefreshed).step == (TokenStep::Failed {
            error: TokenError::RefreshFailed,
        }),
{
}

/// The token to store is the one used, unless it had to be stored and could not be.
pub proof fn law_stored(
    run: TokenRun,
    token: StoredToken,
    with_client: bool,
    must_succeed: bool,
    result: SaveResult,
)
    requires
        run.step == (TokenStep::Save { token, with_client, must_succeed }),
    ensures
        ({
            let next = after(run, TokenEvent::Save(result));
            &&& result == SaveResult::Saved || !must_succeed ==> next.step == (TokenStep::Done {
                token,
            })
            &&& result == SaveResult::Unserializable && must_succeed ==> next.step == (
            TokenStep::Failed { error: TokenError::Unserializable })
            &&& result == SaveResult::Unwritable && must_succeed ==> next.step == (
            TokenStep::Failed { error: TokenError::Unwritable })
            &&& next.flow == run.flow && next.client == run.client
        }),
{
}

/// What a login was granted can be renewed: the search for the stored token, once that token ends
/// within a minute, renews it with the refresh token that the login was granted.
pub proof fn law_login_can_be_renewed(
    events: Seq<TokenEvent>,
    grant: TokenGrant,
    now: UtcInstant,
    renewable: String,
    then: UtcInstant,
    end: UtcInstant,
)
    requires
        after_all(start(Flow::Login), events).step is Authorize,
        grant.refresh_token == Some(renewable),
        is_usual_time(then),
        granted_token(grant, now).expires_at_utc == Some(end),
        end.seconds < then.seconds + 60,
    ensures
        ({
            let saving = after_all(
                start(Flow::Login),
                events.push(TokenEvent::Granted { grant, now }),
            );
            &&& saving.step matches TokenStep::Save { token, with_client, .. } && {
                let read = TokenRead::Parsed {
                    file: TokenFile::Stored(token),
                    client: saving.client,
                };
                let search = after_all(
                    start(Flow::Stored),
                    seq![TokenEvent::Present(true), TokenEvent::Token { read, now: then }],
                );
                &&& with_client
                &&& search.step == (TokenStep::Refresh { refresh_token: renewable })
                &&& search.client == saving.client
                &&& search.client is Some
            }
        }),
{
    let granted = TokenEvent::Granted { grant, now };
    law_sound(Flow::Login, events);
    law_sound(Flow::Login, events.push(granted));
    assert(events.push(granted).drop_last() == events);
    let saving = after_all(start(Flow::Login), events.push(granted));
    if let TokenStep::Save { token, .. } = saving.step {
        law_runs_out(token, then);
        law_login_serves(saving.client->0, token, then);
    }
}

/// The reasons that concern a file name it in full.
pub proof fn law_file_reasons(secrets: Seq<char>, token: Seq<char>)
    ensures
        TokenError::SecretsMissing.text(secrets, token) == "`"@ + secrets
            + "` not found (download an OAuth Desktop client JSON from Google Cloud)"@,
        TokenError::SecretsUnreadable.text(secrets, token) == "read "@ + secrets,
        TokenError::TokenMissing.text(secrets, token) == "`"@ + token
            + "` not found (log in first)"@,
        TokenError::TokenUnreadable.text(secrets, token) == "read "@ + token,
        TokenError::TokenUnparsable.text(secrets, token) == "parse "@ + token,
        TokenError::ClientUnknown.text(secrets, token) == "no client in `"@ + token
            + "` to renew the token with (log in again)"@,
        TokenError::Unwritable.text(secrets, token) == "write "@ + token,
{
}

/// The other reasons do not depend on where the files are.
pub proof fn law_other_reasons(
    error: TokenError,
    secrets: Seq<char>,
    token: Seq<char>,
    secrets2: Seq<char>,
    token2: Seq<char>,
)
    requires
        error is SecretsUnparsable || error is Client || error is RefreshFailed
            || error is AuthorizationFailed || error is Unserializable,
    ensures
        error.text(secrets, token) == error.text(secrets2, token2),
{
}

/// Only a moment that is not usual, or a lifetime that cannot be reckoned with, keeps an event from
/// being taken in.
pub proof fn law_timely(event: TokenEvent)
    ensures
        !(event is Token || event is Granted) ==> is_timely(event),
        event matches TokenEvent::Token { now, .. } ==> (is_timely(event) <==> is_usual_time(now)),
        event matches TokenEvent::Granted { grant, now } ==> (is_usual_time(now) && can_expire(
            now,
            grant.expires_in,
        ) ==> is_timely(event)),
{
}

} // verus!
