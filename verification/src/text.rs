//! Text helpers: white space, lines, words and decimal numbers.
use vstd::prelude::*;
use vstd::utf8::encode_utf8;

verus! {

/// `String::push` appends one character.
pub assume_specification[ String::push ](s: &mut String, c: char)
    ensures
        final(s)@ == old(s)@.push(c),
;

/// `String::pop` takes the last character off, if there is one, and returns it.
pub assume_specification[ String::pop ](s: &mut String) -> (r: Option<char>)
    ensures
        old(s)@.len() == 0 ==> r is None && final(s)@ == old(s)@,
        old(s)@.len() > 0 ==> r == Some(old(s)@.last()) && final(s)@ == old(s)@.drop_last(),
;

/// The text of an optional string.
pub open spec fn text_of(s: Option<String>) -> Option<Seq<char>> {
    match s {
        Some(t) => Some(t@),
        None => None,
    }
}

/// Tells whether two texts are the same.
pub fn same_text(a: &str, b: &str) -> (r: bool)
    ensures
        r == (a@ == b@),
{
    a.to_string() == b.to_string()
}

/// How many bytes a text takes in UTF-8.
pub open spec fn byte_len(s: Seq<char>) -> usize {
    encode_utf8(s).len() as usize
}

/// The Unicode property White_Space.
pub open spec fn white_space(c: char) -> bool {
    ||| '\u{9}' <= c <= '\u{d}'
    ||| c == ' '
    ||| c == '\u{85}'
    ||| c == '\u{a0}'
    ||| c == '\u{1680}'
    ||| '\u{2000}' <= c <= '\u{200a}'
    ||| c == '\u{2028}'
    ||| c == '\u{2029}'
    ||| c == '\u{202f}'
    ||| c == '\u{205f}'
    ||| c == '\u{3000}'
}

/// Tells whether a character has the Unicode property White_Space.
pub fn is_white_space(c: char) -> (r: bool)
    ensures
        r == white_space(c),
{
    ('\u{9}' <= c && c <= '\u{d}') || c == ' ' || c == '\u{85}' || c == '\u{a0}' || c == '\u{1680}'
        || ('\u{2000}' <= c && c <= '\u{200a}') || c == '\u{2028}' || c == '\u{2029}'
        || c == '\u{202f}' || c == '\u{205f}' || c == '\u{3000}'
}

/// `s` without the white space at its start.
pub open spec fn trim_start(s: Seq<char>) -> Seq<char>
    decreases s.len(),
{
    if s.len() > 0 && white_space(s.first()) {
        trim_start(s.drop_first())
    } else {
        s
    }
}

/// `s` without the white space at its end.
pub open spec fn trim_end(s: Seq<char>) -> Seq<char>
    decreases s.len(),
{
    if s.len() > 0 && white_space(s.last()) {
        trim_end(s.drop_last())
    } else {
        s
    }
}

/// `s` without the white space at either end.
pub open spec fn trimmed(s: Seq<char>) -> Seq<char> {
    trim_end(trim_start(s))
}

/// The characters of a string.
fn chars_of(s: &str) -> (r: Vec<char>)
    ensures
        r@ == s@,
{
    let mut r: Vec<char> = Vec::new();
    for c in it: s.chars()
        invariant
            it.seq() == s@,
            r@ == s@.take(it.index() as int),
    {
        r.push(c);
        assert(s@.take(it.index() + 1) == s@.take(it.index() as int).push(c));
    }
    assert(s@.take(s@.len() as int) == s@);
    r
}

/// A copy of `s` without the white space at either end.
pub fn trim(s: &str) -> (r: String)
    ensures
        r@ == trimmed(s@),
{
    let chars = chars_of(s);
    let mut from: usize = 0;
    assert(s@.skip(0) == s@);
    while from < chars.len() && is_white_space(chars[from])
        invariant
            from <= chars.len(),
            chars@ == s@,
            trim_start(s@) == trim_start(s@.skip(from as int)),
        decreases chars.len() - from,
    {
        assert(s@.skip(from as int).drop_first() == s@.skip(from + 1));
        from = from + 1;
    }
    let ghost body = s@.skip(from as int);
    let mut to: usize = chars.len();
    assert(body.take(to - from) == body);
    while to > from && is_white_space(chars[to - 1])
        invariant
            from <= to <= chars.len(),
            chars@ == s@,
            body == s@.skip(from as int),
            trim_end(body) == trim_end(body.take(to - from)),
        decreases to,
    {
        assert(body.take(to - from).drop_last() == body.take(to - from - 1));
        to = to - 1;
    }
    assert(s@.subrange(from as int, to as int) == body.take(to - from));
    s.substring_char(from, to).to_string()
}

proof fn lemma_trim_start(s: Seq<char>) -> (from: int)
    ensures
        0 <= from <= s.len(),
        trim_start(s) == s.skip(from),
        from < s.len() ==> !white_space(s[from]),
    decreases s.len(),
{
    if s.len() > 0 && white_space(s.first()) {
        let from = lemma_trim_start(s.drop_first());
        assert(s.drop_first().skip(from) == s.skip(from + 1));
        from + 1
    } else {
        assert(s.skip(0) == s);
        0
    }
}

proof fn lemma_trim_end(s: Seq<char>) -> (to: int)
    ensures
        0 <= to <= s.len(),
        trim_end(s) == s.take(to),
        to > 0 ==> !white_space(s[to - 1]),
    decreases s.len(),
{
    if s.len() > 0 && white_space(s.last()) {
        let to = lemma_trim_end(s.drop_last());
        assert(s.drop_last().take(to) == s.take(to));
        to
    } else {
        assert(s.take(s.len() as int) == s);
        s.len() as int
    }
}

/// A trimmed text is a piece of the text it came from, begins and ends with something other
/// than white space unless it is empty, and stays as it is when trimmed again.
pub proof fn law_trimmed(s: Seq<char>)
    ensures
        exists|from: int, to: int|
            0 <= from <= to <= s.len() && trimmed(s) == #[trigger] s.subrange(from, to),
        trimmed(s).len() > 0 ==> !white_space(trimmed(s).first()) && !white_space(
            trimmed(s).last(),
        ),
        trimmed(trimmed(s)) == trimmed(s),
{
    let from = lemma_trim_start(s);
    let body = trim_start(s);
    let to = lemma_trim_end(body);
    assert(s.subrange(from, from + to) == body.take(to));
    if to > 0 {
        assert(trimmed(s).first() == body[0] && body[0] == s[from]);
        assert(trimmed(s).last() == body[to - 1]);
    }
}

/// Where the first word of `s` ends: the place of its first white space, or its length.
pub open spec fn word_len(s: Seq<char>) -> nat
    decreases s.len(),
{
    if s.len() == 0 || white_space(s.first()) {
        0
    } else {
        1 + word_len(s.drop_first())
    }
}

/// The first word of a text is no longer than the text.
pub proof fn lemma_word_len_bound(s: Seq<char>)
    ensures
        word_len(s) <= s.len(),
    decreases s.len(),
{
    if s.len() > 0 {
        lemma_word_len_bound(s.drop_first());
    }
}

/// The words of `s`: its longest runs of characters other than white space, in order.
pub open spec fn words(s: Seq<char>) -> Seq<Seq<char>>
    decreases s.len(),
{
    if s.len() == 0 {
        seq![]
    } else if white_space(s.first()) {
        words(s.drop_first())
    } else {
        proof {
            lemma_word_len_bound(s);
        }
        seq![s.take(word_len(s) as int)] + words(s.skip(word_len(s) as int))
    }
}

/// The place of the first `c` in `s`, or the length of `s` if it has none.
pub open spec fn place_of(s: Seq<char>, c: char) -> nat
    decreases s.len(),
{
    if s.len() == 0 || s.first() == c {
        0
    } else {
        1 + place_of(s.drop_first(), c)
    }
}

/// The first line of `s`, without the line feed, or the carriage return and line feed, that
/// ends it.
pub open spec fn first_line(s: Seq<char>) -> Seq<char> {
    let end = place_of(s, '\n') as int;
    if end < s.len() && end > 0 && s[end - 1] == '\r' {
        s.take(end - 1)
    } else {
        s.take(end)
    }
}

proof fn lemma_word_len(s: Seq<char>, n: int)
    requires
        0 <= n <= s.len(),
        forall|i: int| 0 <= i < n ==> !white_space(s[i]),
        n == s.len() || white_space(s[n]),
    ensures
        word_len(s) == n,
    decreases s.len(),
{
    if n > 0 {
        let t = s.drop_first();
        assert forall|i: int| 0 <= i < n - 1 implies !white_space(t[i]) by {
            assert(t[i] == s[i + 1]);
        }
        lemma_word_len(t, n - 1);
    }
}

/// The place of a character lies within the text.
pub proof fn lemma_place_of_bound(s: Seq<char>, c: char)
    ensures
        place_of(s, c) <= s.len(),
        s.len() > 0 && s.first() != c ==> place_of(s, c) > 0,
    decreases s.len(),
{
    if s.len() > 0 {
        lemma_place_of_bound(s.drop_first(), c);
    }
}

/// The first `c` in a text is the one that no other stands before.
pub proof fn lemma_place_of(s: Seq<char>, c: char, n: int)
    requires
        0 <= n <= s.len(),
        forall|i: int| 0 <= i < n ==> s[i] != c,
        n == s.len() || s[n] == c,
    ensures
        place_of(s, c) == n,
    decreases s.len(),
{
    if n > 0 {
        let t = s.drop_first();
        assert forall|i: int| 0 <= i < n - 1 implies t[i] != c by {
            assert(t[i] == s[i + 1]);
        }
        lemma_place_of(t, c, n - 1);
    }
}

/// The first line of a text.
fn take_first_line(text: &str) -> (r: &str)
    ensures
        r@ == first_line(text@),
{
    let chars = chars_of(text);
    let mut end: usize = 0;
    while end < chars.len() && chars[end] != '\n'
        invariant
            end <= chars.len(),
            chars@ == text@,
            forall|i: int| 0 <= i < end ==> text@[i] != '\n',
        decreases chars.len() - end,
    {
        end = end + 1;
    }
    proof {
        lemma_place_of(text@, '\n', end as int);
    }
    if end < chars.len() && end > 0 && chars[end - 1] == '\r' {
        assert(text@.subrange(0, end - 1) == text@.take(end - 1));
        text.substring_char(0, end - 1)
    } else {
        assert(text@.subrange(0, end as int) == text@.take(end as int));
        text.substring_char(0, end)
    }
}

/// Where the first word at or after `from` begins and ends.
fn next_word(chars: &Vec<char>, from: usize) -> (r: (usize, usize))
    requires
        from <= chars.len(),
    ensures
        from <= r.0 <= r.1 <= chars.len(),
        r.0 == r.1 <==> words(chars@.skip(from as int)).len() == 0,
        r.0 < r.1 ==> words(chars@.skip(from as int)) == seq![
            chars@.subrange(r.0 as int, r.1 as int),
        ] + words(chars@.skip(r.1 as int)),
{
    let ghost all = words(chars@.skip(from as int));
    let mut start: usize = from;
    while start < chars.len() && is_white_space(chars[start])
        invariant
            from <= start <= chars.len(),
            words(chars@.skip(start as int)) == all,
        decreases chars.len() - start,
    {
        assert(chars@.skip(start as int).drop_first() == chars@.skip(start + 1));
        start = start + 1;
    }
    let ghost rest = chars@.skip(start as int);
    let mut end: usize = start;
    while end < chars.len() && !is_white_space(chars[end])
        invariant
            start <= end <= chars.len(),
            rest == chars@.skip(start as int),
            forall|i: int| 0 <= i < end - start ==> !white_space(rest[i]),
        decreases chars.len() - end,
    {
        assert(rest[end - start] == chars@[end as int]);
        end = end + 1;
    }
    proof {
        if end < chars.len() {
            assert(rest[end - start] == chars@[end as int]);
        }
        lemma_word_len(rest, end - start);
        if start < chars.len() {
            assert(rest.first() == chars@[start as int]);
            assert(rest.take(end - start) == chars@.subrange(start as int, end as int));
            assert(rest.skip(end - start) == chars@.skip(end as int));
        }
    }
    (start, end)
}

/// The second word of the first line of `text`: in an HTTP request, the target.
pub open spec fn request_target(text: Seq<char>) -> Option<Seq<char>> {
    let found = words(first_line(text));
    if found.len() >= 2 {
        Some(found[1])
    } else {
        None
    }
}

/// The second word of the first line of a text, if it has one.
pub fn target_of_request(text: &str) -> (r: Option<String>)
    ensures
        r is Some <==> request_target(text@) is Some,
        r matches Some(target) ==> Some(target@) == request_target(text@),
{
    let line = take_first_line(text);
    let chars = chars_of(line);
    assert(chars@.skip(0) == chars@);
    let first = next_word(&chars, 0);
    if first.0 == first.1 {
        return None;
    }
    let second = next_word(&chars, first.1);
    if second.0 == second.1 {
        return None;
    }
    Some(line.substring_char(second.0, second.1).to_string())
}

/// The target of a request is the text between the first two blanks of its first line, if it
/// holds no white space itself.
pub proof fn law_request_target(
    method: Seq<char>,
    target: Seq<char>,
    version: Seq<char>,
    rest: Seq<char>,
)
    requires
        method.len() > 0,
        target.len() > 0,
        forall|i: int| 0 <= i < method.len() ==> !white_space(#[trigger] method[i]),
        forall|i: int| 0 <= i < target.len() ==> !white_space(#[trigger] target[i]),
        forall|i: int| 0 <= i < version.len() ==> #[trigger] version[i] != '\n',
    ensures
        request_target(method + seq![' '] + target + seq![' '] + version + seq!['\r', '\n'] + rest)
            == Some(target),
{
    let line = method + seq![' '] + target + seq![' '] + version;
    let s = line + seq!['\r', '\n'] + rest;
    let end = line.len() + 1;
    assert forall|i: int| 0 <= i < end implies s[i] != '\n' by {
        if i < method.len() {
            assert(s[i] == method[i]);
        } else if method.len() < i < method.len() + 1 + target.len() {
            assert(s[i] == target[i - method.len() - 1]);
        } else if method.len() + 1 + target.len() < i < line.len() {
            assert(s[i] == version[i - method.len() - target.len() - 2]);
        }
    }
    lemma_place_of(s, '\n', end as int);
    assert(s[end - 1] == '\r');
    assert(first_line(s) == line);

    let n = method.len() as int;
    assert forall|i: int| 0 <= i < n implies !white_space(line[i]) by {
        assert(line[i] == method[i]);
    }
    lemma_word_len(line, n);
    assert(line.first() == method[0]);
    let behind = line.skip(n);
    assert(words(line) == seq![line.take(n)] + words(behind));
    assert(behind.first() == ' ');
    let t = behind.drop_first();
    assert(t == target + seq![' '] + version);
    let m = target.len() as int;
    assert forall|i: int| 0 <= i < m implies !white_space(t[i]) by {
        assert(t[i] == target[i]);
    }
    lemma_word_len(t, m);
    assert(t.first() == target[0]);
    assert(words(behind) == words(t));
    assert(words(t) == seq![t.take(m)] + words(t.skip(m)));
    assert(t.take(m) == target);
    assert(words(line)[1] == target);
}

/// The decimal digit for a number below ten.
pub open spec fn digit(n: nat) -> char {
    (48 + n) as char
}

/// A number in decimal, without leading zeros.
pub open spec fn decimal(n: nat) -> Seq<char>
    decreases n,
{
    if n < 10 {
        seq![digit(n)]
    } else {
        decimal(n / 10).push(digit(n % 10))
    }
}

/// Writes a number in decimal.
pub fn decimal_text(n: u64) -> (r: String)
    ensures
        r@ == decimal(n as nat),
    decreases n,
{
    let d: u8 = (n % 10) as u8;
    let c: char = (48u8 + d) as char;
    if n < 10 {
        let mut r = String::new();
        r.push(c);
        r
    } else {
        let mut r = decimal_text(n / 10);
        r.push(c);
        r
    }
}

/// The number that a text of decimal digits stands for.
pub open spec fn number(s: Seq<char>) -> int
    decreases s.len(),
{
    if s.len() == 0 {
        0
    } else {
        10 * number(s.drop_last()) + (s.last() as int - '0' as int)
    }
}

/// A number in decimal is made of digits, has no zero in front unless it is one digit long, and
/// reads as the number.
pub proof fn law_decimal(n: nat)
    ensures
        number(decimal(n)) == n,
        decimal(n).len() >= 1,
        forall|i: int| 0 <= i < decimal(n).len() ==> '0' <= #[trigger] decimal(n)[i] <= '9',
        decimal(n).len() > 1 ==> decimal(n)[0] != '0',
    decreases n,
{
    if n < 10 {
        assert(decimal(n).drop_last() == Seq::<char>::empty());
        assert(number(Seq::<char>::empty()) == 0);
    } else {
        law_decimal(n / 10);
        assert(decimal(n).drop_last() == decimal(n / 10));
        if decimal(n / 10).len() == 1 {
            assert(decimal(n / 10).drop_last() == Seq::<char>::empty());
            assert(number(Seq::<char>::empty()) == 0);
        }
    }
}

/// Whether all of a text is white space.
pub open spec fn is_gap(s: Seq<char>) -> bool {
    forall|i: int| 0 <= i < s.len() ==> white_space(#[trigger] s[i])
}

/// Whether none of a text is white space.
pub open spec fn is_solid(s: Seq<char>) -> bool {
    forall|i: int| 0 <= i < s.len() ==> !white_space(#[trigger] s[i])
}

/// Trimming takes off white space at both ends, all of it and nothing else: whatever stands
/// between two gaps, and begins and ends with something solid, is what is left.
pub proof fn law_trim_between(front: Seq<char>, body: Seq<char>, back: Seq<char>)
    requires
        is_gap(front),
        is_gap(back),
        body.len() > 0 ==> !white_space(body.first()) && !white_space(body.last()),
    ensures
        trimmed(front + body + back) == body,
    decreases front.len() + back.len(),
{
    let s = front + body + back;
    if front.len() > 0 {
        assert(s.first() == front[0]);
        assert(s.drop_first() == front.drop_first() + body + back);
        assert forall|i: int| 0 <= i < front.drop_first().len() implies white_space(
            #[trigger] front.drop_first()[i],
        ) by {
            assert(front.drop_first()[i] == front[i + 1]);
        }
        law_trim_between(front.drop_first(), body, back);
    } else if body.len() == 0 {
        assert(s == back);
        lemma_trim_gap(back);
        assert(body == Seq::<char>::empty());
    } else {
        assert(s == body + back);
        assert(s.first() == body[0]);
        assert(trim_start(s) == s);
        lemma_trim_back(body, back);
    }
}

proof fn lemma_trim_gap(s: Seq<char>)
    requires
        is_gap(s),
    ensures
        trim_start(s) == Seq::<char>::empty(),
        trimmed(s) == Seq::<char>::empty(),
    decreases s.len(),
{
    if s.len() > 0 {
        assert(white_space(s[0]));
        assert forall|i: int| 0 <= i < s.drop_first().len() implies white_space(
            #[trigger] s.drop_first()[i],
        ) by {
            assert(s.drop_first()[i] == s[i + 1]);
        }
        lemma_trim_gap(s.drop_first());
    } else {
        assert(s == Seq::<char>::empty());
    }
}

proof fn lemma_trim_back(body: Seq<char>, back: Seq<char>)
    requires
        is_gap(back),
        body.len() > 0,
        !white_space(body.last()),
    ensures
        trim_end(body + back) == body,
    decreases back.len(),
{
    let s = body + back;
    if back.len() > 0 {
        assert(s.last() == back[back.len() - 1]);
        assert(s.drop_last() == body + back.drop_last());
        assert forall|i: int| 0 <= i < back.drop_last().len() implies white_space(
            #[trigger] back.drop_last()[i],
        ) by {
            assert(back.drop_last()[i] == back[i]);
        }
        lemma_trim_back(body, back.drop_last());
    } else {
        assert(s == body);
    }
}

proof fn lemma_words_gap(gap: Seq<char>, s: Seq<char>)
    requires
        is_gap(gap),
    ensures
        words(gap + s) == words(s),
    decreases gap.len(),
{
    if gap.len() > 0 {
        assert((gap + s).first() == gap[0]);
        assert((gap + s).drop_first() == gap.drop_first() + s);
        assert forall|i: int| 0 <= i < gap.drop_first().len() implies white_space(
            #[trigger] gap.drop_first()[i],
        ) by {
            assert(gap.drop_first()[i] == gap[i + 1]);
        }
        lemma_words_gap(gap.drop_first(), s);
    } else {
        assert(gap + s == s);
    }
}

proof fn lemma_words_word(word: Seq<char>, s: Seq<char>)
    requires
        is_solid(word),
        word.len() > 0,
        s.len() > 0 ==> white_space(s.first()),
    ensures
        words(word + s) == seq![word] + words(s),
{
    let all = word + s;
    let n = word.len() as int;
    assert forall|i: int| 0 <= i < n implies !white_space(all[i]) by {
        assert(all[i] == word[i]);
    }
    if s.len() > 0 {
        assert(all[n] == s[0]);
    }
    lemma_word_len(all, n);
    assert(all.first() == word[0]);
    assert(all.take(n) == word);
    assert(all.skip(n) == s);
}

/// Whether a line is the first of a text: the text is that line alone, or goes on behind a line
/// feed, or behind a carriage return and a line feed.
pub open spec fn has_first_line(text: Seq<char>, line: Seq<char>, rest: Seq<char>) -> bool {
    &&& forall|i: int| 0 <= i < line.len() ==> #[trigger] line[i] != '\n'
    &&& {
        ||| text == line
        ||| text == line + seq!['\n'] + rest && (line.len() > 0 ==> line.last() != '\r')
        ||| text == line + seq!['\r', '\n'] + rest
    }
}

proof fn lemma_first_line(text: Seq<char>, line: Seq<char>, rest: Seq<char>)
    requires
        has_first_line(text, line, rest),
    ensures
        first_line(text) == line,
{
    let n = line.len() as int;
    if text == line {
        lemma_place_of(text, '\n', n);
        assert(text.take(n) == line);
    } else if text == line + seq!['\n'] + rest && (line.len() > 0 ==> line.last() != '\r') {
        assert forall|i: int| 0 <= i < n implies text[i] != '\n' by {
            assert(text[i] == line[i]);
        }
        assert(text[n] == '\n');
        lemma_place_of(text, '\n', n);
        assert(n > 0 ==> text[n - 1] == line.last());
        assert(text.take(n) == line);
    } else {
        assert forall|i: int| 0 <= i < n + 1 implies text[i] != '\n' by {
            if i < n {
                assert(text[i] == line[i]);
            } else {
                assert(text[i] == '\r');
            }
        }
        assert(text[n + 1] == '\n');
        lemma_place_of(text, '\n', n + 1);
        assert(text.take(n) == line);
    }
}

/// The target of a request is the second word of its first line, whatever white space stands
/// before, between and behind the words, and whatever follows.
pub proof fn law_second_word(
    text: Seq<char>,
    rest: Seq<char>,
    front: Seq<char>,
    first: Seq<char>,
    gap: Seq<char>,
    second: Seq<char>,
    back: Seq<char>,
)
    requires
        has_first_line(text, front + first + gap + second + back, rest),
        is_gap(front),
        is_solid(first),
        first.len() > 0,
        is_gap(gap),
        gap.len() > 0,
        is_solid(second),
        second.len() > 0,
        back.len() > 0 ==> white_space(back.first()),
    ensures
        request_target(text) == Some(second),
{
    let line = front + first + gap + second + back;
    lemma_first_line(text, line, rest);
    assert(line == front + (first + (gap + (second + back))));
    lemma_words_gap(front, first + (gap + (second + back)));
    assert((gap + (second + back)).first() == gap[0]);
    lemma_words_word(first, gap + (second + back));
    lemma_words_gap(gap, second + back);
    lemma_words_word(second, back);
    assert(words(line) == seq![first] + (seq![second] + words(back)));
    assert(words(line)[1] == second);
}

/// A request whose first line has no second word has no target.
pub proof fn law_no_second_word(
    text: Seq<char>,
    rest: Seq<char>,
    front: Seq<char>,
    first: Seq<char>,
    back: Seq<char>,
)
    requires
        has_first_line(text, front + first + back, rest),
        is_gap(front),
        is_solid(first),
        is_gap(back),
    ensures
        request_target(text) is None,
{
    let line = front + first + back;
    lemma_first_line(text, line, rest);
    assert(line == front + (first + back));
    lemma_words_gap(front, first + back);
    lemma_words_gap(back, Seq::empty());
    assert(back + Seq::<char>::empty() == back);
    if first.len() > 0 {
        assert(back.len() > 0 ==> white_space(back[0]));
        lemma_words_word(first, back);
    } else {
        assert(first + back == back);
    }
}

} // verus!
