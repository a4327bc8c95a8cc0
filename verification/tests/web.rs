use terminal_tube::web::{
    find_value, fits_part, is_url, make_authorization_url, query_of, MAX_PART_CHARS,
};

fn pairs(s: &str) -> Vec<(String, String)> {
    query_of(s).unwrap()
}

fn pair(a: &str, b: &str) -> (String, String) {
    (a.to_string(), b.to_string())
}

const VERIFIER: &str = "dBjftJeZ4CVP-mB92K27uhbUJU1p1r_wW1gFWFOEjXk";
const CHALLENGE: &str = "E9Melhoa2OwvFrEMTJguCHaoeK1t8URWbuGJSstw-cM";

#[test]
fn queries_are_taken_apart() {
    assert_eq!(
        pairs("http://localhost/a/b?x=1&y=2=3&&z&=w"),
        vec![pair("x", "1"), pair("y", "2=3"), pair("z", ""), pair("", "w")]
    );
    assert_eq!(pairs("http://localhost/?"), vec![]);
    assert_eq!(pairs("http://localhost"), vec![]);
    assert_eq!(pairs("http://localhost/x?a%20b=c%26d+e"), vec![pair("a b", "c&d e")]);
    assert_eq!(pairs("http://localhost/?a=b#c=d"), vec![pair("a", "b")]);
}

#[test]
fn plain_queries_stand_for_themselves() {
    let plain = "ABCXYZabcxyz0189-._~/";
    let url = format!("http://localhost/{plain}?{plain}={plain}&q=={plain}&/../=.");
    assert_eq!(
        pairs(&url),
        vec![pair(plain, plain), pair("q", &format!("={plain}")), pair("/../", ".")]
    );
    let long = "a".repeat(60000);
    assert_eq!(pairs(&format!("http://localhost/..//.?k={long}")), vec![pair("k", &long)]);
}

#[test]
fn texts_that_are_urls() {
    assert!(is_url("https://accounts.google.com/o/oauth2/auth"));
    assert!(is_url("mailto:a@b"));
    assert!(!is_url(""));
    assert!(!is_url("accounts.google.com"));
    assert!(!is_url("http://"));
}

#[test]
fn the_first_value_with_a_name() {
    let p = vec![pair("a", "1"), pair("b", "2"), pair("a", "3")];
    assert_eq!(find_value(&p, "a").as_deref(), Some("1"));
    assert_eq!(find_value(&p, "b").as_deref(), Some("2"));
    assert_eq!(find_value(&p, "c"), None);
}

#[test]
fn an_authorization_url_asks_for_a_code() {
    let url = make_authorization_url(
        "https://accounts.google.com/o/oauth2/auth?hd=x#f",
        "id &=é",
        "http://127.0.0.1:8080/oauth2/callback",
        "https://www.googleapis.com/auth/youtube",
        "st+ate",
        VERIFIER,
    )
    .unwrap();
    assert!(url.starts_with("https://accounts.google.com/o/oauth2/auth?hd=x&"));
    assert_eq!(
        pairs(&url),
        vec![
            pair("hd", "x"),
            pair("response_type", "code"),
            pair("client_id", "id &=é"),
            pair("state", "st+ate"),
            pair("code_challenge", CHALLENGE),
            pair("code_challenge_method", "S256"),
            pair("redirect_uri", "http://127.0.0.1:8080/oauth2/callback"),
            pair("scope", "https://www.googleapis.com/auth/youtube"),
        ]
    );
}

#[test]
fn an_empty_scope_is_left_out() {
    let url = make_authorization_url("http://a.b", "c", "http://d", "", "e", VERIFIER).unwrap();
    assert_eq!(pairs(&url).len(), 6);
    assert_eq!(find_value(&pairs(&url), "scope"), None);
    assert_eq!(find_value(&pairs(&url), "redirect_uri").as_deref(), Some("http://d"));
}

#[test]
fn endpoints_that_are_no_urls_are_refused() {
    assert_eq!(make_authorization_url("x", "c", "http://d", "s", "e", VERIFIER), None);
    assert_eq!(make_authorization_url("http://a", "c", "d", "s", "e", VERIFIER), None);
}

#[test]
fn ascii_endpoints_are_read_back() {
    for auth in [
        "https://EXAMPLE.com",
        "http://user:pass word@example.com:80/a/../b?x='y z'&&q#frag ment",
        "https://0x7f.1/",
        "https://[::1]:8080/auth?",
        "https://xn--bcher-kva.example/?a=b+c",
        "http:///a/<>\"{}|^`",
    ] {
        let before = pairs(auth);
        let url = make_authorization_url(auth, "c", "http://d", "s", "e", VERIFIER).unwrap();
        let after = pairs(&url);
        assert_eq!(after[..before.len()], before[..], "{auth}");
        assert_eq!(after.len(), before.len() + 7);
        assert_eq!(after[before.len()], pair("response_type", "code"));
    }
}

#[test]
fn an_endpoint_with_an_international_host() {
    let auth = "https://bücher.example/auth";
    let url = make_authorization_url(auth, "c", "http://d", "s", "e", VERIFIER).unwrap();
    assert!(url.starts_with("https://xn--bcher-kva.example/auth?response_type=code&"));
}

#[test]
fn an_endpoint_whose_host_grows_too_long() {
    let host: String = (0..900u32).filter_map(|i| char::from_u32(0x4e00 + 20 * i)).collect();
    let auth = format!("https://{host}/");
    assert!(is_url(&auth));
    let url = make_authorization_url(&auth, "c", "http://d", "s", "e", VERIFIER).unwrap();
    assert!(!is_url(&url));
}

#[test]
fn parts_have_a_greatest_length() {
    assert!(fits_part(""));
    assert!(fits_part(&"é".repeat(MAX_PART_CHARS)));
    assert!(!fits_part(&"a".repeat(MAX_PART_CHARS + 1)));
}
