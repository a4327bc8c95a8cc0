//! Access tokens: what is stored, when it is renewed, and how a program comes by one.
use vstd::prelude::*;
use vstd::utf8::is_ascii_chars_encode_utf8;

use crate::instant::{
    can_expire, expires_at, expiry, later, law_expiry, moment_of, read_rfc3339, UtcInstant, MAX_SECONDS,
};
use crate::redirect::{law_redirect_uri, redirect_uri, redirect_uri_for};
use crate::text::byte_len;
use crate::web::{
    asks_for_code, authorization_url, code_challenge, fits_part, is_ascii_endpoint, is_part,
    is_token, is_url, make_authorization_url, random_state, random_verifier, url_query,
};

verus! {

/// What the client may do: everything in the user's YouTube account.
pub const SCOPE: &'static str = "https://www.googleapis.com/auth/youtube";

/// A token is renewed when it has no more than this many seconds left.
pub const RENEW_EARLY_SECS: u32 = 60;

/// The program as the authorization server knows it.
#[derive(Debug)]
pub struct InstalledClient {
    pub client_id: String,
    pub client_secret: String,
    pub auth_uri: String,
    pub token_uri: String,
}

/// The file that Google hands out for a program.
#[derive(Debug)]
pub struct ClientSecretsFile {
    pub installed: InstalledClient,
}

/// A token, as this program stores it.
#[derive(Debug, Clone)]
pub struct StoredToken {
    pub access_token: String,
    pub refresh_token: Option<String>,
    pub expires_at_utc: Option<UtcInstant>,
}

/// A token, as Google's own tools store it.
#[derive(Debug)]
pub struct GoogleAuthorizedUserToken {
    pub token: String,
    pub refresh_token: Option<String>,
    pub expiry: Option<String>,
}

/// A token in either form.
#[derive(Debug)]
pub enum TokenFile {
    Stored(StoredToken),
    GoogleAuthorizedUser(GoogleAuthorizedUserToken),
}

/// What the authorization server grants. The lifetime is in seconds.
#[derive(Debug)]
pub struct TokenGrant {
    pub access_token: String,
    pub refresh_token: Option<String>,
    pub expires_in: Option<u64>,
}

/// Whether the endpoints of a client are URLs.
pub open spec fn is_usable(client: InstalledClient) -> bool {
    &&& url_query(client.auth_uri@) is Some
    &&& url_query(client.token_uri@) is Some
}

/// Whether a token runs out by a moment shortly after now. One without an expiry does not.
pub open spec fn runs_out_soon(token: StoredToken, now: UtcInstant) -> bool {
    token.expires_at_utc matches Some(end) && end.no_later_than(now.plus(RENEW_EARLY_SECS as int))
}

/// Whether a clock's time leaves room for the time by which tokens are renewed early.
pub open spec fn is_usual_time(now: UtcInstant) -> bool {
    now.is_clock_time() && now.seconds + RENEW_EARLY_SECS <= MAX_SECONDS
}

impl StoredToken {
    /// Whether the token has run out or is about to.
    pub fn is_expired_soon(&self, now: &UtcInstant) -> (r: bool)
        requires
            is_usual_time(*now),
        ensures
            r == runs_out_soon(*self, *now),
    {
        match &self.expires_at_utc {
            Some(end) => end.is_no_later_than(&later(*now, RENEW_EARLY_SECS)),
            None => false,
        }
    }
}

/// A token in Google's form, with the moment that its expiry names, in this program's form.
pub open spec fn from_google(
    token: GoogleAuthorizedUserToken,
    end: Option<UtcInstant>,
) -> StoredToken {
    StoredToken {
        access_token: token.token,
        refresh_token: token.refresh_token,
        expires_at_utc: end,
    }
}

/// A token in either form, in this program's form. An expiry that cannot be read is dropped.
pub open spec fn stored_form(file: TokenFile) -> StoredToken {
    match file {
        TokenFile::Stored(token) => token,
        TokenFile::GoogleAuthorizedUser(token) => from_google(
            token,
            match token.expiry {
                Some(s) => moment_of(s@),
                None => None,
            },
        ),
    }
}

impl GoogleAuthorizedUserToken {
    /// Puts the token into this program's form, given the moment that its expiry names.
    pub fn into_stored(self, end: Option<UtcInstant>) -> (r: StoredToken)
        ensures
            r == from_google(self, end),
    {
        StoredToken {
            access_token: self.token,
            refresh_token: self.refresh_token,
            expires_at_utc: end,
        }
    }
}

impl TokenFile {
    /// Puts the token into this program's form.
    pub fn into_stored_token(self) -> (r: StoredToken)
        ensures
            r == stored_form(self),
    {
        match self {
            TokenFile::Stored(token) => token,
            TokenFile::GoogleAuthorizedUser(token) => {
                let end = match &token.expiry {
                    Some(s) => read_rfc3339(s.as_str()),
                    None => None,
                };
                token.into_stored(end)
            },
        }
    }
}

/// The token that a first grant makes.
pub open spec fn granted_token(grant: TokenGrant, now: UtcInstant) -> StoredToken {
    StoredToken {
        access_token: grant.access_token,
        refresh_token: grant.refresh_token,
        expires_at_utc: expiry(now, grant.expires_in),
    }
}

/// The token that a renewal makes. The refresh token is kept where no new one is granted.
pub open spec fn renewed_token(
    grant: TokenGrant,
    refresh_token: String,
    now: UtcInstant,
) -> StoredToken {
    StoredToken {
        access_token: grant.access_token,
        refresh_token: match grant.refresh_token {
            Some(t) => Some(t),
            None => Some(refresh_token),
        },
        expires_at_utc: expiry(now, grant.expires_in),
    }
}

/// Makes a token of a first grant.
pub fn first_token(grant: TokenGrant, now: UtcInstant) -> (r: StoredToken)
    requires
        now.is_clock_time(),
        can_expire(now, grant.expires_in),
    ensures
        r == granted_token(grant, now),
        r.access_token == grant.access_token,
        r.refresh_token == grant.refresh_token,
{
    let end = expires_at(now, grant.expires_in);
    StoredToken {
        access_token: grant.access_token,
        refresh_token: grant.refresh_token,
        expires_at_utc: end,
    }
}

/// Makes a token of a renewal.
pub fn refresh_token(grant: TokenGrant, previous: String, now: UtcInstant) -> (r: StoredToken)
    requires
        now.is_clock_time(),
        can_expire(now, grant.expires_in),
    ensures
        r == renewed_token(grant, previous, now),
        r.access_token == grant.access_token,
        r.refresh_token == match grant.refresh_token {
            Some(t) => Some(t),
            None => Some(previous),
        },
{
    let end = expires_at(now, grant.expires_in);
    let kept = match grant.refresh_token {
        Some(t) => t,
        None => previous,
    };
    StoredToken {
        access_token: grant.access_token,
        refresh_token: Some(kept),
        expires_at_utc: end,
    }
}

/// Why a client cannot be used.
#[derive(Debug, Clone, Copy, PartialEq, Eq, Structural)]
pub enum ClientError {
    AuthUri,
    TokenUri,
}

/// What is wrong with the endpoints of a client.
pub open spec fn client_fault(client: InstalledClient) -> Option<ClientError> {
    if url_query(client.auth_uri@) is None {
        Some(ClientError::AuthUri)
    } else if url_query(client.token_uri@) is None {
        Some(ClientError::TokenUri)
    } else {
        None
    }
}

/// Takes the client out of its file, if its endpoints are URLs.
pub fn oauth_client_from_secrets(secrets: ClientSecretsFile) -> (r: Result<
    InstalledClient,
    ClientError,
>)
    ensures
        r == match client_fault(secrets.installed) {
            Some(e) => Err::<InstalledClient, ClientError>(e),
            None => Ok::<InstalledClient, ClientError>(secrets.installed),
        },
{
    let client = secrets.installed;
    if !is_url(client.auth_uri.as_str()) {
        Err(ClientError::AuthUri)
    } else if !is_url(client.token_uri.as_str()) {
        Err(ClientError::TokenUri)
    } else {
        Ok(client)
    }
}

/// How the user is asked to authorize the program: the URL that the browser opens, the one that
/// it is sent back to, and the code verifier that goes with the code.
#[derive(Debug)]
pub struct AuthorizationRequest {
    pub url: String,
    pub redirect_uri: String,
    pub verifier: String,
}

/// Whether what goes into a request is short enough.
pub open spec fn can_ask_for(client: InstalledClient, scope: Seq<char>) -> bool {
    is_part(client.auth_uri@) && is_part(client.client_id@) && is_part(scope)
}

/// Tells whether what goes into a request is short enough.
pub fn can_ask(client: &InstalledClient, scope: &str) -> (r: bool)
    ensures
        r == can_ask_for(*client, scope@),
{
    fits_part(client.auth_uri.as_str()) && fits_part(client.client_id.as_str()) && fits_part(scope)
}

/// Whether a request asks for a code with a state and a code verifier.
pub open spec fn asks(
    request: AuthorizationRequest,
    client: InstalledClient,
    port: u16,
    scope: Seq<char>,
    state: Seq<char>,
) -> bool {
    &&& request.redirect_uri@ == redirect_uri(port)
    &&& request.url@ == authorization_url(
        client.auth_uri@,
        client.client_id@,
        redirect_uri(port),
        scope,
        state,
        request.verifier@,
    )
    &&& is_ascii_endpoint(client.auth_uri@) ==> asks_for_code(
        request.url@,
        client.auth_uri@,
        client.client_id@,
        redirect_uri(port),
        scope,
        state,
        code_challenge(request.verifier@),
    )
}

/// Prepares to ask the user, given a port to listen on, a state and a code verifier, unless the
/// authorization endpoint is not a URL.
pub fn authorization_request(
    client: &InstalledClient,
    port: u16,
    scope: &str,
    state: &str,
    verifier: String,
) -> (r: Result<AuthorizationRequest, ClientError>)
    requires
        43 <= byte_len(verifier@) <= 128,
        can_ask_for(*client, scope@),
        is_part(state@),
    ensures
        r is Err <==> url_query(client.auth_uri@) is None,
        r matches Err(e) ==> e == ClientError::AuthUri,
        r matches Ok(request) ==> {
            &&& request.verifier == verifier
            &&& asks(request, *client, port, scope@, state@)
        },
{
    let redirect_uri = redirect_uri_for(port);
    proof {
        law_redirect_uri(port);
    }
    match make_authorization_url(
        client.auth_uri.as_str(),
        client.client_id.as_str(),
        redirect_uri.as_str(),
        scope,
        state,
        verifier.as_str(),
    ) {
        Some(url) => Ok(AuthorizationRequest { url, redirect_uri, verifier }),
        None => Err(ClientError::AuthUri),
    }
}

/// Prepares to ask the user, given a port to listen on, with a random state and a random code
/// verifier, unless the authorization endpoint is not a URL.
pub fn first_time_authorize(client: &InstalledClient, port: u16, scope: &str) -> (r: Result<
    AuthorizationRequest,
    ClientError,
>)
    requires
        can_ask_for(*client, scope@),
    ensures
        r is Err <==> url_query(client.auth_uri@) is None,
        r matches Err(e) ==> e == ClientError::AuthUri,
        r matches Ok(request) ==> {
            &&& is_token(request.verifier@, 43)
            &&& exists|state: Seq<char>|
                is_token(state, 22) && #[trigger] asks(request, *client, port, scope@, state)
        },
{
    let state = random_state();
    let verifier = random_verifier();
    proof {
        is_ascii_chars_encode_utf8(verifier@);
    }
    authorization_request(client, port, scope, state.as_str(), verifier)
}

/// The token of a first authorization has exactly the access token and the refresh token that were
/// granted, and ends with the lifetime granted.
pub proof fn law_first_token(grant: TokenGrant, now: UtcInstant, token: StoredToken)
    requires
        token == granted_token(grant, now),
        now.is_clock_time(),
        can_expire(now, grant.expires_in),
    ensures
        token.access_token@ == grant.access_token@,
        match grant.refresh_token {
            Some(t) => token.refresh_token matches Some(kept) && kept@ == t@,
            None => token.refresh_token is None,
        },
        grant.expires_in is None ==> token.expires_at_utc is None,
        grant.expires_in matches Some(seconds) ==> (token.expires_at_utc matches Some(end) && {
            &&& end.seconds - now.seconds == if seconds <= 9223372036854775 {
                seconds as int
            } else {
                0
            }
            &&& end.nanos == now.nanos
        }),
{
    law_expiry(now, grant.expires_in);
}

/// A renewed token has exactly the access token that was granted, the refresh token that was
/// granted or else the one that it was renewed with, and ends with the lifetime granted.
pub proof fn law_renewed_token(
    grant: TokenGrant,
    previous: String,
    now: UtcInstant,
    token: StoredToken,
)
    requires
        token == renewed_token(grant, previous, now),
        now.is_clock_time(),
        can_expire(now, grant.expires_in),
    ensures
        token.access_token@ == grant.access_token@,
        token.refresh_token matches Some(kept) && kept@ == match grant.refresh_token {
            Some(t) => t@,
            None => previous@,
        },
        grant.expires_in is None ==> token.expires_at_utc is None,
        grant.expires_in matches Some(seconds) ==> (token.expires_at_utc matches Some(end) && {
            &&& end.seconds - now.seconds == if seconds <= 9223372036854775 {
                seconds as int
            } else {
                0
            }
            &&& end.nanos == now.nanos
        }),
{
    law_expiry(now, grant.expires_in);
}

/// A token is renewed exactly if it has an end and a minute from now is not before it.
pub proof fn law_runs_out(token: StoredToken, now: UtcInstant)
    requires
        is_usual_time(now),
    ensures
        token.expires_at_utc is None ==> !runs_out_soon(token, now),
        token.expires_at_utc matches Some(end) ==> (runs_out_soon(token, now) <==> end.seconds
            < now.seconds + 60 || (end.seconds == now.seconds + 60 && end.nanos <= now.nanos)),
{
}

/// A clock's time is usual in any year before 249000.
pub proof fn law_usual_time(now: UtcInstant)
    requires
        0 <= now.seconds <= 7800000000000,
        now.nanos < 1000000000,
    ensures
        is_usual_time(now),
{
}

/// A token in this program's form is taken as it is. One in Google's form keeps its access token
/// and its refresh token, and ends when its expiry says, if that can be read.
pub proof fn law_stored_form(file: TokenFile, token: StoredToken)
    requires
        token == stored_form(file),
    ensures
        match file {
            TokenFile::Stored(stored) => token == stored,
            TokenFile::GoogleAuthorizedUser(google) => {
                &&& token.access_token@ == google.token@
                &&& match google.refresh_token {
                    Some(t) => token.refresh_token matches Some(kept) && kept@ == t@,
                    None => token.refresh_token is None,
                }
                &&& match google.expiry {
                    Some(text) => token.expires_at_utc == moment_of(text@),
                    None => token.expires_at_utc is None,
                }
            },
        },
{
}

/// A client is refused exactly if one of its endpoints is not a URL, the authorization endpoint
/// first; and exactly those that are not refused can be used.
pub proof fn law_client_fault(client: InstalledClient)
    ensures
        client_fault(client) == Some(ClientError::AuthUri) <==> url_query(client.auth_uri@) is None,
        client_fault(client) == Some(ClientError::TokenUri) <==> url_query(client.auth_uri@) is Some
            && url_query(client.token_uri@) is None,
        client_fault(client) is None <==> url_query(client.auth_uri@) is Some && url_query(
            client.token_uri@,
        ) is Some,
        client_fault(client) is None <==> is_usable(client),
{
}

/// The URL that the user is sent to asks the endpoint, behind whatever its own query holds, for a
/// code for this client, with the state, the challenge of the verifier, the place to come back to
/// and the scope.
pub proof fn law_asks(
    request: AuthorizationRequest,
    client: InstalledClient,
    port: u16,
    scope: Seq<char>,
    state: Seq<char>,
)
    requires
        asks(request, client, port, scope, state),
        "https://"@.is_prefix_of(client.auth_uri@),
        forall|i: int|
            0 <= i < client.auth_uri@.len() ==> #[trigger] client.auth_uri@[i] <= '\u{7f}'
                && client.auth_uri@[i] != '%',
        scope.len() > 0,
        url_query(client.auth_uri@) is Some,
    ensures
        url_query(request.url@) matches Some(query) && {
            let n = url_query(client.auth_uri@)->0.len() as int;
            &&& query.len() == n + 7
            &&& query.take(n) == url_query(client.auth_uri@)->0
            &&& query[n] == ("response_type"@, "code"@)
            &&& query[n + 1] == ("client_id"@, client.client_id@)
            &&& query[n + 2] == ("state"@, state)
            &&& query[n + 3] == ("code_challenge"@, code_challenge(request.verifier@))
            &&& query[n + 4] == ("code_challenge_method"@, "S256"@)
            &&& query[n + 5] == ("redirect_uri"@, request.redirect_uri@)
            &&& query[n + 6] == ("scope"@, scope)
        },
{
    let base = url_query(client.auth_uri@)->0;
    assert(url_query(request.url@)->0.take(base.len() as int) == base);
}

} // verus!
