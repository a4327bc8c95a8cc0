use terminal_tube::text::{decimal_text, is_white_space, same_text, target_of_request, trim};

#[test]
fn white_space_is_that_of_unicode() {
    for c in '\0'..=char::MAX {
        assert_eq!(is_white_space(c), c.is_whitespace(), "{c:?}");
    }
}

#[test]
fn trimming_is_that_of_std() {
    for s in ["", " ", "a", " a ", "\t\u{a0}a b\u{3000}\n", "\u{200b}x", "é ", "  \n\t", "x\u{85}"] {
        assert_eq!(trim(s), s.trim());
        assert_eq!(trim(&trim(s)), s.trim());
    }
}

#[test]
fn texts_are_compared_by_their_characters() {
    assert!(same_text("code", "code"));
    assert!(same_text("", ""));
    assert!(!same_text("code", "Code"));
    assert!(!same_text("code", "code "));
}

#[test]
fn numbers_are_written_in_decimal() {
    for n in [0u64, 7, 10, 99, 100, 65535, 4096, 1234567890, u64::MAX] {
        assert_eq!(decimal_text(n), n.to_string());
    }
}

#[test]
fn targets_are_those_of_lines_and_words() {
    for s in [
        "",
        "GET",
        "GET ",
        "GET /a",
        "GET /a HTTP/1.1\r\nHost: x\r\n\r\n",
        "\n/x /y",
        "\r\n/x /y",
        "  GET \t /a\r",
        "GET\u{a0}/é b\nrest",
        "GET /a\rb c",
        "one\ntwo three",
    ] {
        let expected = s.lines().next().unwrap_or("").split_whitespace().nth(1);
        assert_eq!(target_of_request(s).as_deref(), expected, "{s:?}");
    }
}
