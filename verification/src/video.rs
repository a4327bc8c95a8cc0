//! Finding the id of a video in what the user gave.
use vstd::prelude::*;

verus! {

/// A marker of a video link and the id behind it.
pub const LINK_PATTERN: &'static str = r"(?:v=|youtu\.be/|embed/|shorts/)([A-Za-z0-9_-]{11})";

/// An id alone.
pub const BARE_PATTERN: &'static str = r"^([A-Za-z0-9_-]{11})$";

/// Why no id was found.
#[derive(Debug)]
pub enum VideoIdError {
    /// A pattern was refused.
    Pattern,
    /// A pattern matched without its group.
    GroupMissing,
    /// Neither pattern matches the input.
    NotFound { input: String },
}

impl VideoIdError {
    /// What went wrong, in words.
    pub open spec fn text(self) -> Seq<char> {
        match self {
            VideoIdError::Pattern => "compile video id regex"@,
            VideoIdError::GroupMissing => "video id capture missing"@,
            VideoIdError::NotFound { input } => "Could not extract a video ID from: "@ + input@,
        }
    }

    /// What went wrong, in words.
    pub fn message(&self) -> (r: String)
        ensures
            r@ == self.text(),
    {
        match self {
            VideoIdError::Pattern => "compile video id regex".to_string(),
            VideoIdError::GroupMissing => "video id capture missing".to_string(),
            VideoIdError::NotFound { input } => {
                let mut r = "Could not extract a video ID from: ".to_string();
                r.append(input.as_str());
                r
            },
        }
    }
}

/// The characters that ids are made of.
pub open spec fn id_char(c: char) -> bool {
    ||| 'A' <= c <= 'Z'
    ||| 'a' <= c <= 'z'
    ||| '0' <= c <= '9'
    ||| c == '_'
    ||| c == '-'
}

/// An id: eleven characters of those that ids are made of.
pub open spec fn is_id(s: Seq<char>) -> bool {
    s.len() == 11 && forall|i: int| 0 <= i < 11 ==> id_char(#[trigger] s[i])
}

/// Whether `s` begins with a marker and an id right behind it.
pub open spec fn begins_with_link(s: Seq<char>, marker: Seq<char>) -> bool {
    &&& s.len() >= marker.len() + 11
    &&& s.take(marker.len() as int) == marker
    &&& is_id(s.subrange(marker.len() as int, marker.len() as int + 11))
}

/// The id of the link at the beginning of `s`, if there is one.
pub open spec fn id_at_start(s: Seq<char>) -> Option<Seq<char>> {
    if begins_with_link(s, "v="@) {
        Some(s.subrange(2, 13))
    } else if begins_with_link(s, "youtu.be/"@) {
        Some(s.subrange(9, 20))
    } else if begins_with_link(s, "embed/"@) {
        Some(s.subrange(6, 17))
    } else if begins_with_link(s, "shorts/"@) {
        Some(s.subrange(7, 18))
    } else {
        None
    }
}

/// The id of the first link in `s`.
pub open spec fn id_in_link(s: Seq<char>) -> Option<Seq<char>>
    decreases s.len(),
{
    if s.len() == 0 {
        None
    } else if id_at_start(s) is Some {
        id_at_start(s)
    } else {
        id_in_link(s.drop_first())
    }
}

/// The id that `s` is, if it is one.
pub open spec fn bare_id(s: Seq<char>) -> Option<Seq<char>> {
    if is_id(s) {
        Some(s)
    } else {
        None
    }
}

/// The id in `s`: that of the first link in it or, where there is none, `s` itself.
pub open spec fn video_id(s: Seq<char>) -> Option<Seq<char>> {
    if id_in_link(s) is Some {
        id_in_link(s)
    } else {
        bare_id(s)
    }
}

/// What the two patterns of this module capture in `s`.
pub open spec fn captured(pattern: Seq<char>, s: Seq<char>) -> Option<Seq<char>> {
    if pattern == LINK_PATTERN@ {
        id_in_link(s)
    } else {
        bare_id(s)
    }
}

/// The type `regex::Error`: why a pattern was refused.
#[verifier::external_type_specification]
#[verifier::external_body]
pub struct ExRegexError(regex::Error);

/// `regex::Regex::new`, then `Regex::captures` and group 1 of the match. Both patterns of this
/// module are accepted. Where one matches, the match is the leftmost, and its group holds the
/// eleven characters of the id.
#[verifier::external_body]
fn first_group(pattern: &str, s: &str) -> (r: Result<Option<Option<String>>, regex::Error>)
    requires
        pattern@ == LINK_PATTERN@ || pattern@ == BARE_PATTERN@,
    ensures
        r is Ok,
        r->Ok_0 is Some <==> captured(pattern@, s@) is Some,
        r->Ok_0 matches Some(group) ==> group is Some && Some(group->0@) == captured(pattern@, s@),
{
    let re = regex::Regex::new(pattern)?;
    Ok(re.captures(s).map(|caps| caps.get(1).map(|m| m.as_str().to_string())))
}

/// Finds the id of a video in a link to it, or takes an id as it is.
pub fn extract_video_id(input: &str) -> (r: Result<String, VideoIdError>)
    ensures
        r is Ok <==> video_id(input@) is Some,
        r matches Ok(id) ==> Some(id@) == video_id(input@),
        r matches Err(e) ==> (e matches VideoIdError::NotFound { input: given } && given@ == input@),
{
    proof {
        reveal_strlit(r"(?:v=|youtu\.be/|embed/|shorts/)([A-Za-z0-9_-]{11})");
        reveal_strlit(r"^([A-Za-z0-9_-]{11})$");
        assert(LINK_PATTERN@[0] != BARE_PATTERN@[0]);
    }
    let patterns: [&'static str; 2] = [LINK_PATTERN, BARE_PATTERN];
    let mut i: usize = 0;
    while i < 2
        invariant
            i <= 2,
            patterns@[0]@ == LINK_PATTERN@,
            patterns@[1]@ == BARE_PATTERN@,
            LINK_PATTERN@ != BARE_PATTERN@,
            i >= 1 ==> id_in_link(input@) is None,
            i >= 2 ==> bare_id(input@) is None,
        decreases 2 - i,
    {
        match first_group(patterns[i], input) {
            Ok(Some(Some(id))) => return Ok(id),
            Ok(Some(None)) => return Err(VideoIdError::GroupMissing),
            Ok(None) => {},
            Err(_) => return Err(VideoIdError::Pattern),
        }
        i = i + 1;
    }
    Err(VideoIdError::NotFound { input: input.to_string() })
}

proof fn lemma_link_is_long(s: Seq<char>)
    ensures
        s.len() < 13 ==> id_in_link(s) is None,
    decreases s.len(),
{
    reveal_strlit("v=");
    reveal_strlit("youtu.be/");
    reveal_strlit("embed/");
    reveal_strlit("shorts/");
    if s.len() > 0 {
        lemma_link_is_long(s.drop_first());
    }
}

proof fn lemma_id_in_link(s: Seq<char>) -> (at: int)
    ensures
        id_in_link(s) matches Some(id) ==> {
            &&& is_id(id)
            &&& 0 <= at <= at + 11 <= s.len()
            &&& id == s.subrange(at, at + 11)
        },
    decreases s.len(),
{
    reveal_strlit("v=");
    reveal_strlit("youtu.be/");
    reveal_strlit("embed/");
    reveal_strlit("shorts/");
    if s.len() == 0 {
        0
    } else if begins_with_link(s, "v="@) {
        2
    } else if begins_with_link(s, "youtu.be/"@) {
        9
    } else if begins_with_link(s, "embed/"@) {
        6
    } else if begins_with_link(s, "shorts/"@) {
        7
    } else {
        let at = lemma_id_in_link(s.drop_first());
        if id_in_link(s) is Some {
            assert(s.drop_first().subrange(at, at + 11) == s.subrange(at + 1, at + 12));
        }
        at + 1
    }
}

/// What is found is an id, a piece of the input, and is found again in itself.
pub proof fn law_found_id(s: Seq<char>)
    ensures
        video_id(s) matches Some(id) ==> {
            &&& is_id(id)
            &&& exists|at: int| 0 <= at <= at + 11 <= s.len() && id == #[trigger] s.subrange(at, at + 11)
            &&& video_id(id) == Some(id)
        },
{
    let at = lemma_id_in_link(s);
    if id_in_link(s) is Some {
        lemma_link_is_long(id_in_link(s)->0);
    } else if is_id(s) {
        lemma_link_is_long(s);
        assert(s.subrange(0int, 0int + 11) == s);
    }
}

/// An id alone is taken as it is.
pub proof fn law_bare_id(id: Seq<char>)
    requires
        is_id(id),
    ensures
        video_id(id) == Some(id),
{
    lemma_link_is_long(id);
}

proof fn lemma_first_link(head: Seq<char>, marker: Seq<char>, id: Seq<char>, tail: Seq<char>)
    requires
        marker == "v="@ || marker == "youtu.be/"@ || marker == "embed/"@ || marker == "shorts/"@,
        is_id(id),
        forall|i: int|
            0 <= i < head.len() ==> id_at_start(
                #[trigger] (head + marker + id + tail).skip(i),
            ) is None,
    ensures
        id_in_link(head + marker + id + tail) == Some(id),
    decreases head.len(),
{
    let s = head + marker + id + tail;
    if head.len() == 0 {
        reveal_strlit("v=");
        reveal_strlit("youtu.be/");
        reveal_strlit("embed/");
        reveal_strlit("shorts/");
        assert(s.take(marker.len() as int) == marker);
        assert(s.subrange(marker.len() as int, marker.len() as int + 11) == id);
        assert(begins_with_link(s, marker));
        lemma_marker_chars(s);
    } else {
        let less = head.drop_first();
        let t = less + marker + id + tail;
        assert(s.drop_first() == t);
        assert forall|i: int| 0 <= i < less.len() implies id_at_start(
            #[trigger] t.skip(i),
        ) is None by {
            assert(t.skip(i) == s.skip(i + 1));
        }
        lemma_first_link(less, marker, id, tail);
        assert(s.skip(0) == s);
    }
}

/// The id of a link is found whatever stands before it, as long as no link begins there, and
/// whatever stands behind it.
pub proof fn law_first_link(head: Seq<char>, marker: Seq<char>, id: Seq<char>, tail: Seq<char>)
    requires
        marker == "v="@ || marker == "youtu.be/"@ || marker == "embed/"@ || marker == "shorts/"@,
        is_id(id),
        forall|i: int|
            0 <= i < head.len() ==> id_at_start(
                #[trigger] (head + marker + id + tail).skip(i),
            ) is None,
    ensures
        video_id(head + marker + id + tail) == Some(id),
{
    lemma_first_link(head, marker, id, tail);
}

/// The characters that tell where a link begins, and which marker it has.
proof fn lemma_marker_chars(s: Seq<char>)
    ensures
        begins_with_link(s, "v="@) ==> s.len() >= 6 && s[0] == 'v' && s[1] == '=',
        begins_with_link(s, "youtu.be/"@) ==> s[0] == 'y' && s[1] == 'o' && s[5] == '.',
        begins_with_link(s, "embed/"@) ==> s[0] == 'e' && s[1] == 'm',
        begins_with_link(s, "shorts/"@) ==> s[0] == 's' && s[1] == 'h',
{
    reveal_strlit("v=");
    reveal_strlit("youtu.be/");
    reveal_strlit("embed/");
    reveal_strlit("shorts/");
    assert(s.len() >= 2 ==> s.take(2)[0] == s[0] && s.take(2)[1] == s[1]);
    assert(s.len() >= 9 ==> s.take(9)[0] == s[0] && s.take(9)[1] == s[1] && s.take(9)[5] == s[5]);
    assert(s.len() >= 6 ==> s.take(6)[0] == s[0] && s.take(6)[1] == s[1]);
    assert(s.len() >= 7 ==> s.take(7)[0] == s[0] && s.take(7)[1] == s[1]);
}

/// Whether a link could begin at a place in a text, going by the characters that tell.
spec fn may_begin(s: Seq<char>, i: int) -> bool {
    ||| s[i] == 'v' && s[i + 1] == '='
    ||| s[i] == 'y' && s[i + 1] == 'o' && !(i + 5 < s.len() && s[i + 5] != '.')
    ||| s[i] == 'e' && s[i + 1] == 'm'
    ||| s[i] == 's' && s[i + 1] == 'h'
}

/// Whether no link could begin at any of the first `n` places in a text.
spec fn is_clear(s: Seq<char>, n: nat) -> bool
    decreases n,
{
    n == 0 || (!may_begin(s, n - 1) && is_clear(s, (n - 1) as nat))
}

proof fn lemma_clear(s: Seq<char>, n: nat, i: int)
    requires
        is_clear(s, n),
        0 <= i < n,
    ensures
        !may_begin(s, i),
    decreases n,
{
    if i < n - 1 {
        lemma_clear(s, (n - 1) as nat, i);
    }
}

proof fn lemma_link_behind(head: Seq<char>, marker: Seq<char>, id: Seq<char>, tail: Seq<char>)
    requires
        marker == "v="@ || marker == "youtu.be/"@ || marker == "embed/"@ || marker == "shorts/"@,
        is_id(id),
        is_clear(head + marker, head.len()),
    ensures
        video_id(head + marker + id + tail) == Some(id),
{
    reveal_strlit("v=");
    reveal_strlit("youtu.be/");
    reveal_strlit("embed/");
    reveal_strlit("shorts/");
    let s = head + marker + id + tail;
    assert forall|i: int| 0 <= i < head.len() implies id_at_start(#[trigger] s.skip(i)) is None by {
        let t = s.skip(i);
        lemma_clear(head + marker, head.len(), i);
        assert(t[0] == (head + marker)[i] && t[1] == (head + marker)[i + 1]);
        assert(i + 5 < (head + marker).len() ==> t[5] == (head + marker)[i + 5]);
        lemma_marker_chars(t);
    }
    law_first_link(head, marker, id, tail);
}

/// The usual links to a video lead to its id, whatever is added to them.
pub proof fn law_usual_links(id: Seq<char>, tail: Seq<char>)
    requires
        is_id(id),
    ensures
        video_id("https://www.youtube.com/watch?"@ + "v="@ + id + tail) == Some(id),
        video_id("https://"@ + "youtu.be/"@ + id + tail) == Some(id),
        video_id("https://www.youtube.com/"@ + "embed/"@ + id + tail) == Some(id),
        video_id("https://www.youtube.com/"@ + "shorts/"@ + id + tail) == Some(id),
{
    reveal_strlit("https://www.youtube.com/watch?");
    reveal_strlit("https://www.youtube.com/");
    reveal_strlit("https://");
    reveal_strlit("v=");
    reveal_strlit("youtu.be/");
    reveal_strlit("embed/");
    reveal_strlit("shorts/");
    reveal_with_fuel(is_clear, 31);
    lemma_link_behind("https://www.youtube.com/watch?"@, "v="@, id, tail);
    lemma_link_behind("https://"@, "youtu.be/"@, id, tail);
    lemma_link_behind("https://www.youtube.com/"@, "embed/"@, id, tail);
    lemma_link_behind("https://www.youtube.com/"@, "shorts/"@, id, tail);
}

/// Whether a marker of a link stands at a place in a text, with an id right behind it.
pub open spec fn has_link(s: Seq<char>, at: int, marker: Seq<char>) -> bool {
    &&& marker == "v="@ || marker == "youtu.be/"@ || marker == "embed/"@ || marker == "shorts/"@
    &&& 0 <= at <= at + marker.len() + 11 <= s.len()
    &&& s.subrange(at, at + marker.len()) == marker
    &&& forall|i: int|
        at + marker.len() <= i < at + marker.len() + 11 ==> {
            ||| 'A' <= (#[trigger] s[i]) <= 'Z'
            ||| 'a' <= s[i] <= 'z'
            ||| '0' <= s[i] <= '9'
            ||| s[i] == '_'
            ||| s[i] == '-'
        }
}

proof fn lemma_has_link(s: Seq<char>, at: int, marker: Seq<char>)
    requires
        0 <= at <= s.len(),
        marker == "v="@ || marker == "youtu.be/"@ || marker == "embed/"@ || marker == "shorts/"@,
    ensures
        has_link(s, at, marker) <==> begins_with_link(s.skip(at), marker),
        has_link(s, at, marker) ==> id_at_start(s.skip(at)) == Some(
            s.subrange(at + marker.len(), at + marker.len() + 11),
        ),
{
    let t = s.skip(at);
    let m = marker.len() as int;
    reveal_strlit("v=");
    reveal_strlit("youtu.be/");
    reveal_strlit("embed/");
    reveal_strlit("shorts/");
    if at + m + 11 <= s.len() {
        assert(t.take(m) == s.subrange(at, at + m));
        assert(t.subrange(m, m + 11) == s.subrange(at + m, at + m + 11));
        let id = t.subrange(m, m + 11);
        if begins_with_link(t, marker) {
            assert forall|i: int| at + m <= i < at + m + 11 implies id_char(#[trigger] s[i]) by {
                assert(s[i] == id[i - at - m]);
                assert(id_char(id[i - at - m]));
            }
        }
        if has_link(s, at, marker) {
            assert forall|i: int| 0 <= i < 11 implies id_char(#[trigger] id[i]) by {
                assert(id[i] == s[at + m + i]);
            }
            lemma_marker_chars(t);
        }
    }
}

proof fn lemma_leftmost(s: Seq<char>, from: int, at: int, marker: Seq<char>)
    requires
        0 <= from <= at,
        has_link(s, at, marker),
        forall|i: int, m: Seq<char>| from <= i < at ==> !#[trigger] has_link(s, i, m),
    ensures
        id_in_link(s.skip(from)) == Some(
            s.subrange(at + marker.len(), at + marker.len() + 11),
        ),
    decreases at - from,
{
    reveal_strlit("v=");
    reveal_strlit("youtu.be/");
    reveal_strlit("embed/");
    reveal_strlit("shorts/");
    lemma_has_link(s, at, marker);
    if from < at {
        lemma_none_at(s, from);
        assert(s.skip(from).drop_first() == s.skip(from + 1));
        lemma_leftmost(s, from + 1, at, marker);
    }
}

proof fn lemma_none_at(s: Seq<char>, at: int)
    requires
        0 <= at <= s.len(),
        forall|m: Seq<char>| !#[trigger] has_link(s, at, m),
    ensures
        id_at_start(s.skip(at)) is None,
{
    lemma_has_link(s, at, "v="@);
    lemma_has_link(s, at, "youtu.be/"@);
    lemma_has_link(s, at, "embed/"@);
    lemma_has_link(s, at, "shorts/"@);
    assert(!has_link(s, at, "v="@));
    assert(!has_link(s, at, "youtu.be/"@));
    assert(!has_link(s, at, "embed/"@));
    assert(!has_link(s, at, "shorts/"@));
}

proof fn lemma_no_link(s: Seq<char>, from: int)
    requires
        0 <= from <= s.len(),
        forall|i: int, m: Seq<char>| from <= i < s.len() ==> !#[trigger] has_link(s, i, m),
    ensures
        id_in_link(s.skip(from)) is None,
    decreases s.len() - from,
{
    if from < s.len() {
        lemma_none_at(s, from);
        assert(s.skip(from).drop_first() == s.skip(from + 1));
        lemma_no_link(s, from + 1);
    }
}

/// Wherever links stand in a text, the id found is the eleven characters behind the marker of the
/// first of them.
pub proof fn law_leftmost_link(s: Seq<char>, at: int, marker: Seq<char>)
    requires
        has_link(s, at, marker),
        forall|i: int, m: Seq<char>| 0 <= i < at ==> !#[trigger] has_link(s, i, m),
    ensures
        video_id(s) == Some(s.subrange(at + marker.len(), at + marker.len() + 11)),
{
    assert(s.skip(0) == s);
    lemma_leftmost(s, 0, at, marker);
}

/// A text without a link is an id if it is eleven letters, digits, underscores and hyphens, and
/// holds none otherwise.
pub proof fn law_without_link(s: Seq<char>)
    requires
        forall|i: int, m: Seq<char>| 0 <= i < s.len() ==> !#[trigger] has_link(s, i, m),
    ensures
        video_id(s) == if s.len() == 11 && forall|i: int|
            0 <= i < 11 ==> {
                ||| 'A' <= (#[trigger] s[i]) <= 'Z'
                ||| 'a' <= s[i] <= 'z'
                ||| '0' <= s[i] <= '9'
                ||| s[i] == '_'
                ||| s[i] == '-'
            } {
            Some(s)
        } else {
            None
        },
{
    assert(s.skip(0) == s);
    lemma_no_link(s, 0);
    if is_id(s) {
        assert forall|i: int| 0 <= i < 11 implies id_char(#[trigger] s[i]) by {}
    }
}

/// What no id was found in is named in full.
pub proof fn law_not_found_text(e: VideoIdError, given: Seq<char>)
    requires
        e matches VideoIdError::NotFound { input } && input@ == given,
    ensures
        e.text() == "Could not extract a video ID from: "@ + given,
{
}

} // verus!
