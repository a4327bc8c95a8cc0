//! URLs.
use oauth2::basic::BasicClient;
use oauth2::{
    AuthUrl, ClientId, CsrfToken, PkceCodeChallenge, PkceCodeVerifier, RedirectUrl, Scope,
};
use vstd::prelude::*;

use crate::text::{byte_len, decimal, lemma_place_of, lemma_place_of_bound, place_of, same_text};

verus! {

/// The names and values in the query of a URL.
pub type PairsView = Seq<(Seq<char>, Seq<char>)>;

/// The texts of names and values.
pub open spec fn pair_texts(pairs: Seq<(String, String)>) -> PairsView {
    Seq::new(pairs.len(), |i: int| (pairs[i].0@, pairs[i].1@))
}

/// What `url::Url::parse` and `Url::query_pairs` read in a text: the names and values in the
/// query of the URL, or nothing where the text is not a URL.
pub uninterp spec fn url_query(s: Seq<char>) -> Option<PairsView>;

/// Whether a character is a hexadecimal digit.
pub open spec fn is_hex(c: char) -> bool {
    ||| '0' <= c <= '9'
    ||| 'A' <= c <= 'F'
    ||| 'a' <= c <= 'f'
}

/// The value of a hexadecimal digit.
pub open spec fn hex_value(c: char) -> int {
    if '0' <= c <= '9' {
        c as int - '0' as int
    } else if 'A' <= c <= 'F' {
        c as int - 'A' as int + 10
    } else {
        c as int - 'a' as int + 10
    }
}

/// What a name or a value in a query stands for: a plus is a blank, and a percent sign with two
/// hexadecimal digits is the character with that number.
pub open spec fn decoded(s: Seq<char>) -> Seq<char>
    decreases s.len(),
{
    if s.len() == 0 {
        seq![]
    } else if s.first() == '+' {
        seq![' '] + decoded(s.drop_first())
    } else if s.first() == '%' && s.len() >= 3 {
        seq![(16 * hex_value(s[1]) + hex_value(s[2])) as char] + decoded(s.skip(3))
    } else {
        seq![s.first()] + decoded(s.drop_first())
    }
}

/// A name and a value that stand on either side of the first equals sign.
pub open spec fn form_pair(s: Seq<char>) -> (Seq<char>, Seq<char>) {
    let n = place_of(s, '=') as int;
    (
        decoded(s.take(n)),
        if n < s.len() {
            decoded(s.skip(n + 1))
        } else {
            seq![]
        },
    )
}

/// The names and values of a query in which only ASCII is encoded: those of the pieces between
/// ampersands that are not empty.
pub open spec fn form_pairs(s: Seq<char>) -> PairsView
    decreases s.len(),
{
    if s.len() == 0 {
        seq![]
    } else if s.first() == '&' {
        form_pairs(s.drop_first())
    } else {
        let n = place_of(s, '&') as int;
        proof {
            lemma_place_of_bound(s, '&');
        }
        seq![form_pair(s.take(n))] + form_pairs(s.skip(n))
    }
}

/// Characters that stand for themselves in the path and the query of a URL.
pub open spec fn is_plain(c: char) -> bool {
    ||| 'A' <= c <= 'Z'
    ||| 'a' <= c <= 'z'
    ||| '0' <= c <= '9'
    ||| c == '-'
    ||| c == '.'
    ||| c == '_'
    ||| c == '~'
    ||| c == '/'
}

/// Whether all characters of a path stand for themselves.
pub open spec fn is_plain_path(s: Seq<char>) -> bool {
    forall|i: int| 0 <= i < s.len() ==> is_plain(#[trigger] s[i])
}

/// Whether an ASCII character is encoded at a place in a text.
pub open spec fn is_escape_at(s: Seq<char>, i: int) -> bool {
    &&& s[i] == '%'
    &&& i + 2 < s.len()
    &&& '0' <= s[i + 1] <= '7'
    &&& is_hex(s[i + 2])
}

/// Whether all characters of a query stand for themselves, part its names and values, or encode
/// ASCII characters.
pub open spec fn is_form_query(s: Seq<char>) -> bool {
    forall|i: int|
        0 <= i < s.len() ==> is_plain(#[trigger] s[i]) || s[i] == '=' || s[i] == '&' || s[i] == '+'
            || is_escape_at(s, i)
}

/// A text in which nothing is encoded stands for itself.
pub proof fn law_plain_text(s: Seq<char>)
    requires
        is_plain_path(s),
    ensures
        decoded(s) == s,
    decreases s.len(),
{
    if s.len() > 0 {
        let rest = s.drop_first();
        assert forall|i: int| 0 <= i < rest.len() implies is_plain(#[trigger] rest[i]) by {
            assert(rest[i] == s[i + 1]);
        }
        law_plain_text(rest);
        assert(is_plain(s[0]));
        assert(seq![s.first()] + rest == s);
    }
}

/// A URL on the local host with a path and a query.
pub open spec fn local_url(path: Seq<char>, query: Seq<char>) -> Seq<char> {
    "http://localhost/"@ + path + "?"@ + query
}

/// Whether a text is a URL on the local host, with a path in which nothing is encoded and a query
/// in which only ASCII is, and not excessively long.
pub open spec fn has_plain_parts(s: Seq<char>, path: Seq<char>, query: Seq<char>) -> bool {
    &&& s == local_url(path, query)
    &&& is_plain_path(path)
    &&& is_form_query(query)
    &&& s.len() <= u16::MAX
}

/// Whether a text is such a URL with some path and query.
pub open spec fn is_plain_url(s: Seq<char>) -> bool {
    exists|path: Seq<char>, query: Seq<char>| has_plain_parts(s, path, query)
}

/// Whether names and values are those of the query, if a text is such a URL.
pub open spec fn is_plain_reading(s: Seq<char>, pairs: PairsView) -> bool {
    forall|path: Seq<char>, query: Seq<char>| #[trigger]
        has_plain_parts(s, path, query) ==> pairs == form_pairs(query)
}

/// Whether a text is a URL with a port of this machine and a path in which nothing is encoded,
/// and not excessively long.
pub open spec fn has_loopback_parts(s: Seq<char>, port: u16, path: Seq<char>) -> bool {
    &&& s == "http://127.0.0.1:"@ + decimal(port as nat) + "/"@ + path
    &&& is_plain_path(path)
    &&& s.len() <= u16::MAX
}

/// Whether a text is such a URL with some port and path.
pub open spec fn is_loopback_url(s: Seq<char>) -> bool {
    exists|port: u16, path: Seq<char>| has_loopback_parts(s, port, path)
}

/// The type `url::ParseError`: why a text is not a URL.
#[verifier::external_type_specification]
#[verifier::external_body]
pub struct ExParseError(url::ParseError);

/// `url::Url::parse`, then `Url::query_pairs`. Which texts are URLs, and how a query is taken
/// apart and decoded, is not spelled out, but for URLs on the local host, by name or by address,
/// in whose path nothing is encoded and in whose query only ASCII is; both depend on the text
/// alone.
#[verifier::external_body]
fn parse_query(s: &str) -> (r: Result<Vec<(String, String)>, url::ParseError>)
    ensures
        r is Ok <==> url_query(s@) is Some,
        r matches Ok(pairs) ==> url_query(s@) == Some(pair_texts(pairs@)),
        is_plain_url(s@) ==> r is Ok,
        is_loopback_url(s@) ==> r is Ok,
        r matches Ok(pairs) ==> is_plain_reading(s@, pair_texts(pairs@)),
{
    Ok(url::Url::parse(s)?.query_pairs().into_owned().collect())
}

/// Reads the names and values in the query of a URL.
pub fn query_of(s: &str) -> (r: Option<Vec<(String, String)>>)
    ensures
        r is Some <==> url_query(s@) is Some,
        r matches Some(pairs) ==> url_query(s@) == Some(pair_texts(pairs@)),
        is_plain_url(s@) || is_loopback_url(s@) ==> r is Some,
        r matches Some(pairs) ==> is_plain_reading(s@, pair_texts(pairs@)),
{
    match parse_query(s) {
        Ok(pairs) => Some(pairs),
        Err(_) => None,
    }
}

/// Whether a text is a URL.
pub fn is_url(s: &str) -> (r: bool)
    ensures
        r == url_query(s@) is Some,
        is_plain_url(s@) || is_loopback_url(s@) ==> r,
{
    query_of(s).is_some()
}

/// The first value with a name.
pub open spec fn first_value(pairs: PairsView, name: Seq<char>) -> Option<Seq<char>>
    decreases pairs.len(),
{
    if pairs.len() == 0 {
        None
    } else if pairs.first().0 == name {
        Some(pairs.first().1)
    } else {
        first_value(pairs.drop_first(), name)
    }
}

/// Finds the first value with a name.
pub fn find_value(pairs: &Vec<(String, String)>, name: &str) -> (r: Option<String>)
    ensures
        r is Some <==> first_value(pair_texts(pairs@), name@) is Some,
        r matches Some(value) ==> first_value(pair_texts(pairs@), name@) == Some(value@),
{
    let ghost all = pair_texts(pairs@);
    let mut i: usize = 0;
    assert(all.skip(0) == all);
    while i < pairs.len()
        invariant
            i <= pairs.len(),
            all == pair_texts(pairs@),
            first_value(all.skip(i as int), name@) == first_value(all, name@),
        decreases pairs.len() - i,
    {
        let pair = &pairs[i];
        assert(all.skip(i as int).first() == (pair.0@, pair.1@));
        if same_text(pair.0.as_str(), name) {
            return Some(pair.1.clone());
        }
        assert(all.skip(i as int).drop_first() == all.skip(i + 1));
        i = i + 1;
    }
    None
}

/// The alphabet of base64 for URLs.
pub open spec fn is_base64_char(c: char) -> bool {
    ||| 'A' <= c <= 'Z'
    ||| 'a' <= c <= 'z'
    ||| '0' <= c <= '9'
    ||| c == '-'
    ||| c == '_'
}

/// Whether a text is made of so many characters of that alphabet.
pub open spec fn is_token(s: Seq<char>, len: nat) -> bool {
    s.len() == len && forall|i: int| 0 <= i < len ==> is_base64_char(#[trigger] s[i])
}

/// `CsrfToken::new_random`: a random text. It is sixteen random bytes in unpadded base64 with
/// the alphabet for URLs; which bytes is up to chance.
#[verifier::external_body]
pub(crate) fn random_state() -> (r: String)
    ensures
        is_token(r@, 22),
{
    CsrfToken::new_random().secret().clone()
}

/// `PkceCodeChallenge::new_random_sha256`, of which the code verifier is kept. It is thirty-two
/// random bytes in unpadded base64 with the alphabet for URLs; which bytes is up to chance.
#[verifier::external_body]
pub(crate) fn random_verifier() -> (r: String)
    ensures
        is_token(r@, 43),
{
    PkceCodeChallenge::new_random_sha256().1.secret().clone()
}

/// The URL that `oauth2` makes to ask for an authorization code: from the authorization
/// endpoint, the client's id, the redirect URL, the scope, the state and the code verifier.
pub uninterp spec fn authorization_url(
    auth_uri: Seq<char>,
    client_id: Seq<char>,
    redirect_uri: Seq<char>,
    scope: Seq<char>,
    state: Seq<char>,
    verifier: Seq<char>,
) -> Seq<char>;

/// The challenge that `PkceCodeChallenge::from_code_verifier_sha256` makes of a code verifier.
pub uninterp spec fn code_challenge(verifier: Seq<char>) -> Seq<char>;

/// Whether a text begins as the address of a web page does.
pub open spec fn is_web_address(s: Seq<char>) -> bool {
    "https://"@.is_prefix_of(s) || "http://"@.is_prefix_of(s)
}

/// Whether a text is the address of a web page in ASCII characters, with none encoded. The host
/// of such an address is never encoded anew.
pub open spec fn is_ascii_endpoint(s: Seq<char>) -> bool {
    &&& is_web_address(s)
    &&& forall|i: int| 0 <= i < s.len() ==> #[trigger] s[i] <= '\u{7f}' && s[i] != '%'
}

/// The most characters in a part of an authorization URL. `url` does not support URLs of more
/// than four gigabytes; whatever is encoded, parts up to this length stay below.
pub const MAX_PART_CHARS: usize = 16777216;

/// Whether a text is short enough for a part of an authorization URL.
pub open spec fn is_part(s: Seq<char>) -> bool {
    s.len() <= MAX_PART_CHARS
}

/// Tells whether a text is short enough for a part of an authorization URL.
pub fn fits_part(s: &str) -> (r: bool)
    ensures
        r == is_part(s@),
{
    s.unicode_len() <= MAX_PART_CHARS
}

/// The names and values by which an authorization code is asked for.
pub open spec fn code_request(
    client_id: Seq<char>,
    redirect_uri: Seq<char>,
    scope: Seq<char>,
    state: Seq<char>,
    challenge: Seq<char>,
) -> PairsView {
    seq![
        ("response_type"@, "code"@),
        ("client_id"@, client_id),
        ("state"@, state),
        ("code_challenge"@, challenge),
        ("code_challenge_method"@, "S256"@),
        ("redirect_uri"@, redirect_uri),
    ] + if scope.len() > 0 {
        seq![("scope"@, scope)]
    } else {
        seq![]
    }
}

/// Whether the query of a URL is that of an authorization endpoint with a code request added.
pub open spec fn asks_for_code(
    url: Seq<char>,
    auth_uri: Seq<char>,
    client_id: Seq<char>,
    redirect_uri: Seq<char>,
    scope: Seq<char>,
    state: Seq<char>,
    challenge: Seq<char>,
) -> bool {
    url_query(url) == Some(
        url_query(auth_uri)->0 + code_request(client_id, redirect_uri, scope, state, challenge),
    )
}

/// `oauth2`'s `Client::authorize_url` with one scope and the challenge that
/// `PkceCodeChallenge::from_code_verifier_sha256` makes of a code verifier. The
/// query of the URL is read back as that of the endpoint, followed by the parts of the request;
/// this is said alone of endpoints on the web in ASCII, because the encoded form of another host
/// can be too long to be read again. How the parts are encoded, and the challenge, is not spelled
/// out. The endpoints have to be URLs, the verifier has to have a length on which the challenge
/// does not panic, and the parts must not make a URL so long that `url` panics.
#[verifier::external_body]
fn authorize_url(
    auth_uri: &str,
    client_id: &str,
    redirect_uri: &str,
    scope: &str,
    state: &str,
    verifier: &str,
) -> (r: String)
    requires
        url_query(auth_uri@) is Some,
        url_query(redirect_uri@) is Some,
        43 <= byte_len(verifier@) <= 128,
        is_part(auth_uri@),
        is_part(client_id@),
        is_part(redirect_uri@),
        is_part(scope@),
        is_part(state@),
    ensures
        r@ == authorization_url(auth_uri@, client_id@, redirect_uri@, scope@, state@, verifier@),
        is_ascii_endpoint(auth_uri@) ==> asks_for_code(
            r@,
            auth_uri@,
            client_id@,
            redirect_uri@,
            scope@,
            state@,
            code_challenge(verifier@),
        ),
{
    let auth = AuthUrl::new(auth_uri.to_string()).unwrap();
    let redirect = RedirectUrl::new(redirect_uri.to_string()).unwrap();
    let client = BasicClient::new(ClientId::new(client_id.to_string()), None, auth, None);
    let code = PkceCodeVerifier::new(verifier.to_string());
    let state = CsrfToken::new(state.to_string());
    client
        .set_redirect_uri(redirect)
        .authorize_url(|| state)
        .add_scope(Scope::new(scope.to_string()))
        .set_pkce_challenge(PkceCodeChallenge::from_code_verifier_sha256(&code))
        .url()
        .0
        .to_string()
}

/// Makes the URL to ask for an authorization code, unless one of the endpoints is not a URL.
pub fn make_authorization_url(
    auth_uri: &str,
    client_id: &str,
    redirect_uri: &str,
    scope: &str,
    state: &str,
    verifier: &str,
) -> (r: Option<String>)
    requires
        43 <= byte_len(verifier@) <= 128,
        is_part(auth_uri@),
        is_part(client_id@),
        is_part(redirect_uri@),
        is_part(scope@),
        is_part(state@),
    ensures
        r is Some <==> url_query(auth_uri@) is Some && url_query(redirect_uri@) is Some,
        url_query(auth_uri@) is Some && is_loopback_url(redirect_uri@) ==> r is Some,
        r matches Some(url) ==> url@ == authorization_url(
            auth_uri@,
            client_id@,
            redirect_uri@,
            scope@,
            state@,
            verifier@,
        ),
        r is Some && is_ascii_endpoint(auth_uri@) ==> asks_for_code(
            r->0@,
            auth_uri@,
            client_id@,
            redirect_uri@,
            scope@,
            state@,
            code_challenge(verifier@),
        ),
{
    if is_url(auth_uri) && is_url(redirect_uri) {
        Some(authorize_url(auth_uri, client_id, redirect_uri, scope, state, verifier))
    } else {
        None
    }
}

/// The value found under a name is that of the first pair with the name, and none is found exactly
/// if no pair has it.
pub proof fn law_first_value(pairs: PairsView, name: Seq<char>)
    ensures
        first_value(pairs, name) is None <==> forall|i: int|
            0 <= i < pairs.len() ==> (#[trigger] pairs[i]).0 != name,
        forall|at: int|
            0 <= at < pairs.len() && (#[trigger] pairs[at]).0 == name && (forall|i: int|
                0 <= i < at ==> (#[trigger] pairs[i]).0 != name) ==> first_value(pairs, name)
                == Some(pairs[at].1),
    decreases pairs.len(),
{
    if pairs.len() > 0 {
        let rest = pairs.drop_first();
        law_first_value(rest, name);
        assert forall|i: int| 0 <= i < rest.len() implies rest[i] == pairs[i + 1] by {}
        if pairs.first().0 == name {
            assert(pairs[0].0 == name);
        } else {
            assert(first_value(pairs, name) == first_value(rest, name));
            if first_value(rest, name) is None {
                assert forall|i: int| 0 <= i < pairs.len() implies (#[trigger] pairs[i]).0
                    != name by {
                    if i > 0 {
                        assert(rest[i - 1].0 != name);
                    }
                }
            } else {
                let i = choose|i: int| 0 <= i < rest.len() && !((#[trigger] rest[i]).0 != name);
                assert(pairs[i + 1].0 == name);
            }
            assert forall|at: int|
                0 <= at < pairs.len() && (#[trigger] pairs[at]).0 == name && (forall|i: int|
                    0 <= i < at ==> (#[trigger] pairs[i]).0 != name) implies first_value(
                pairs,
                name,
            ) == Some(pairs[at].1) by {
                assert(at > 0);
                assert(rest[at - 1] == pairs[at]);
                assert forall|i: int| 0 <= i < at - 1 implies (#[trigger] rest[i]).0 != name by {
                    assert(rest[i] == pairs[i + 1]);
                }
            }
        }
    }
}

/// A query is read pair by pair: what stands before the first ampersand is a name and a value on
/// either side of its first equals sign, and the rest is read in the same way.
pub proof fn law_form_pairs(name: Seq<char>, value: Seq<char>, rest: Seq<char>)
    requires
        !name.contains('&') && !name.contains('='),
        !value.contains('&'),
    ensures
        form_pairs(name + seq!['='] + value) == seq![(decoded(name), decoded(value))],
        form_pairs(name + seq!['='] + value + seq!['&'] + rest) == seq![
            (decoded(name), decoded(value)),
        ] + form_pairs(rest),
        form_pairs(seq!['&'] + rest) == form_pairs(rest),
        form_pairs(Seq::empty()) == Seq::<(Seq<char>, Seq<char>)>::empty(),
{
    let piece = name + seq!['='] + value;
    let n = piece.len() as int;
    assert forall|i: int| 0 <= i < n implies piece[i] != '&' by {
        if i < name.len() {
            assert(piece[i] == name[i]);
        } else if i > name.len() {
            assert(piece[i] == value[i - name.len() - 1]);
        }
    }
    assert forall|i: int| 0 <= i < name.len() implies piece[i] != '=' by {
        assert(piece[i] == name[i]);
    }
    lemma_place_of(piece, '=', name.len() as int);
    assert(piece.take(name.len() as int) == name);
    assert(piece.skip(name.len() as int + 1) == value);
    assert(form_pair(piece) == (decoded(name), decoded(value)));
    lemma_place_of(piece, '&', n);
    assert(piece.take(n) == piece);
    assert(piece.skip(n) == Seq::<char>::empty());
    assert(piece.first() != '&') by {
        assert(piece[0] != '&');
    }
    assert(form_pairs(Seq::<char>::empty()) == Seq::<(Seq<char>, Seq<char>)>::empty());
    assert(form_pairs(piece) == seq![form_pair(piece)] + form_pairs(piece.skip(n)));
    let all = piece + seq!['&'] + rest;
    assert forall|i: int| 0 <= i < n implies all[i] != '&' by {
        assert(all[i] == piece[i]);
    }
    assert(all[n] == '&');
    lemma_place_of(all, '&', n);
    assert(all.take(n) == piece);
    assert(all.skip(n) == seq!['&'] + rest);
    assert(all.first() == piece[0]);
    assert((seq!['&'] + rest).drop_first() == rest);
    assert(form_pairs(seq!['&'] + rest) == form_pairs(rest));
}

/// In an encoded text a plus stands for a blank, a percent sign with two hexadecimal digits for the
/// character with that number, and any other character for itself, whatever follows.
pub proof fn law_decoded(n: int, c: char, rest: Seq<char>)
    requires
        0 <= n < 128,
        c != '+' && c != '%',
    ensures
        decoded(seq!['+'] + rest) == seq![' '] + decoded(rest),
        decoded(seq!['%', "0123456789ABCDEF"@[n / 16], "0123456789ABCDEF"@[n % 16]] + rest) == seq![
            n as char,
        ] + decoded(rest),
        decoded(seq!['%', "0123456789abcdef"@[n / 16], "0123456789abcdef"@[n % 16]] + rest) == seq![
            n as char,
        ] + decoded(rest),
        decoded(seq![c] + rest) == seq![c] + decoded(rest),
        decoded(Seq::empty()) == Seq::<char>::empty(),
{
    reveal_strlit("0123456789ABCDEF");
    reveal_strlit("0123456789abcdef");
    let upper = seq!['%', "0123456789ABCDEF"@[n / 16], "0123456789ABCDEF"@[n % 16]] + rest;
    let lower = seq!['%', "0123456789abcdef"@[n / 16], "0123456789abcdef"@[n % 16]] + rest;
    lemma_hex(n / 16);
    lemma_hex(n % 16);
    assert(upper.skip(3) == rest);
    assert(lower.skip(3) == rest);
    assert(16 * hex_value(upper[1]) + hex_value(upper[2]) == n);
    assert(16 * hex_value(lower[1]) + hex_value(lower[2]) == n);
    assert((seq!['+'] + rest).drop_first() == rest);
    assert((seq![c] + rest).drop_first() == rest);
}

proof fn lemma_hex(n: int)
    requires
        0 <= n < 16,
    ensures
        hex_value("0123456789ABCDEF"@[n]) == n,
        hex_value("0123456789abcdef"@[n]) == n,
{
    reveal_strlit("0123456789ABCDEF");
    reveal_strlit("0123456789abcdef");
    assert(n == 0 || n == 1 || n == 2 || n == 3 || n == 4 || n == 5 || n == 6 || n == 7 || n == 8
        || n == 9 || n == 10 || n == 11 || n == 12 || n == 13 || n == 14 || n == 15);
}

/// A part of an authorization URL may have up to sixteen million characters and more.
pub proof fn law_is_part(s: Seq<char>)
    ensures
        is_part(s) <==> s.len() <= 16777216,
{
}

} // verus!
