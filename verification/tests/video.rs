use terminal_tube::video::{extract_video_id, VideoIdError};

const ID: &str = "dQw4w9WgXcQ";

fn id_in(s: &str) -> Option<String> {
    extract_video_id(s).ok()
}

#[test]
fn usual_links_lead_to_the_id() {
    for s in [
        "https://www.youtube.com/watch?v=dQw4w9WgXcQ",
        "https://www.youtube.com/watch?v=dQw4w9WgXcQ&t=42s",
        "https://www.youtube.com/watch?list=PL1&v=dQw4w9WgXcQ",
        "https://youtu.be/dQw4w9WgXcQ?si=abc",
        "https://www.youtube.com/embed/dQw4w9WgXcQ",
        "https://www.youtube.com/shorts/dQw4w9WgXcQ/",
        "v=dQw4w9WgXcQ",
        "look here: youtu.be/dQw4w9WgXcQ!",
    ] {
        assert_eq!(id_in(s).as_deref(), Some(ID), "{s}");
    }
}

#[test]
fn a_bare_id_is_taken_as_it_is() {
    assert_eq!(id_in(ID).as_deref(), Some(ID));
    assert_eq!(id_in("-_-_-_-_-_-").as_deref(), Some("-_-_-_-_-_-"));
}

#[test]
fn the_first_link_counts() {
    assert_eq!(id_in("v=aaaaaaaaaaa v=bbbbbbbbbbb").as_deref(), Some("aaaaaaaaaaa"));
    assert_eq!(id_in("v=short embed/bbbbbbbbbbb").as_deref(), Some("bbbbbbbbbbb"));
    assert_eq!(id_in("v=aaaaaaaaaaab").as_deref(), Some("aaaaaaaaaaa"));
    assert_eq!(id_in("v=v=aaaaaaaaaaa").as_deref(), Some("aaaaaaaaaaa"));
}

#[test]
fn a_link_counts_before_a_bare_id() {
    assert_eq!(id_in("shorts/abc"), None);
    assert_eq!(id_in("éembed/aaaaaaaaaaaé").as_deref(), Some("aaaaaaaaaaa"));
}

#[test]
fn other_texts_have_no_id() {
    for s in [
        "",
        "dQw4w9WgXc",
        "dQw4w9WgXcQ1",
        "dQw4w9WgXcQ\n",
        " dQw4w9WgXcQ",
        "dQw4w9WgXc!",
        "youtuXbe/dQw4w9WgXcQ",
        "watch?V=dQw4w9WgXcQ",
        "dQw4w9WgXcé",
    ] {
        match extract_video_id(s) {
            Err(VideoIdError::NotFound { input }) => assert_eq!(input, s),
            other => panic!("{s:?}: {other:?}"),
        }
    }
}

#[test]
fn video_errors_in_words() {
    let e = extract_video_id("nothing").unwrap_err();
    assert_eq!(e.message(), "Could not extract a video ID from: nothing");
    assert_eq!(VideoIdError::Pattern.message(), "compile video id regex");
    assert_eq!(VideoIdError::GroupMissing.message(), "video id capture missing");
}
