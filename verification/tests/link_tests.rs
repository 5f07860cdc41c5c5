use declickbait::link::extract_video_id;
use regex::Regex;

fn id(s: &str) -> Option<Vec<u8>> {
    Some(s.as_bytes().to_vec())
}

#[test]
fn short_link_is_recognized() {
    let r = extract_video_id("check https://youtu.be/dQw4w9WgXcQ out".as_bytes());
    assert_eq!(r, id("dQw4w9WgXcQ"));
}

#[test]
fn watch_query_link_is_recognized() {
    let r = extract_video_id("https://www.youtube.com/watch?v=dQw4w9WgXcQ".as_bytes());
    assert_eq!(r, id("dQw4w9WgXcQ"));
}

#[test]
fn ampersand_query_link_is_recognized() {
    let r = extract_video_id("https://youtube.com/watch?feature=share&v=aBcDeFgHiJ0".as_bytes());
    assert_eq!(r, id("aBcDeFgHiJ0"));
}

#[test]
fn embed_link_is_recognized() {
    let r = extract_video_id("see https://www.youtube.com/embed/aBcDeFgHiJ0 now".as_bytes());
    assert_eq!(r, id("aBcDeFgHiJ0"));
}

#[test]
fn v_path_link_is_recognized() {
    let r = extract_video_id("https://youtube.com/v/A1b2C3d4E5f".as_bytes());
    assert_eq!(r, id("A1b2C3d4E5f"));
}

#[test]
fn e_path_link_is_recognized() {
    let r = extract_video_id("https://youtube.com/e/A1b2C3d4E5f".as_bytes());
    assert_eq!(r, id("A1b2C3d4E5f"));
}

#[test]
fn nocookie_link_is_recognized() {
    let r = extract_video_id("https://www.youtube-nocookie.com/embed/zZyYxXwWvV_".as_bytes());
    assert_eq!(r, id("zZyYxXwWvV_"));
}

#[test]
fn two_segment_path_link_is_recognized() {
    let r = extract_video_id("https://youtube.com/user/someone/A1b2C3d4E5f".as_bytes());
    assert_eq!(r, id("A1b2C3d4E5f"));
}

#[test]
fn plain_text_yields_nothing() {
    assert_eq!(extract_video_id("no links in here at all".as_bytes()), None);
}

#[test]
fn short_identifier_yields_nothing() {
    assert_eq!(extract_video_id("https://youtu.be/tooShort".as_bytes()), None);
}

#[test]
fn bare_host_path_yields_nothing() {
    // the identifier must follow one of the recognized path forms, not the
    // host directly
    assert_eq!(extract_video_id("https://youtube.com/dQw4w9WgXcQ".as_bytes()), None);
}

#[test]
fn whitespace_breaks_the_query_form() {
    assert_eq!(extract_video_id("youtube.com/watch ?v=dQw4w9WgXcQ".as_bytes()), None);
}

#[test]
fn only_first_link_is_used() {
    let text = "https://youtu.be/AAAAAAAAAAA and https://youtu.be/BBBBBBBBBBB";
    assert_eq!(extract_video_id(text.as_bytes()), id("AAAAAAAAAAA"));
}

#[test]
fn identifier_is_cut_at_eleven_bytes() {
    let r = extract_video_id("https://youtu.be/dQw4w9WgXcQtrailing".as_bytes());
    assert_eq!(r, id("dQw4w9WgXcQ"));
}

#[test]
fn agrees_with_reference_pattern_on_samples() {
    let re = Regex::new(
        r"(?:youtube(?:-nocookie)?\.com/(?:[^/\n\s]+/\S+/|(?:v|e(?:mbed)?)/|\S*?[?&]v=)|youtu\.be/)([a-zA-Z0-9_-]{11})",
    )
    .unwrap();
    let samples = [
        "check https://youtu.be/dQw4w9WgXcQ out",
        "https://www.youtube.com/watch?v=dQw4w9WgXcQ",
        "https://youtube.com/watch?feature=share&v=aBcDeFgHiJ0",
        "see https://www.youtube.com/embed/aBcDeFgHiJ0 now",
        "https://youtube.com/v/A1b2C3d4E5f",
        "https://youtube.com/e/A1b2C3d4E5f",
        "https://www.youtube-nocookie.com/embed/zZyYxXwWvV_",
        "https://youtube.com/user/someone/A1b2C3d4E5f",
        "no links in here at all",
        "https://youtu.be/tooShort",
        "https://youtube.com/dQw4w9WgXcQ",
        "youtube.com/watch ?v=dQw4w9WgXcQ",
        "https://youtu.be/dQw4w9WgXcQtrailing",
        "text youtube.com/a/b/c/dQw4w9WgXcQ more",
        "youtube.com/embed/AAAAAAAAAAA",
        "youtu.be/",
        "",
    ];
    for s in samples {
        let expected = re
            .captures(s)
            .and_then(|c| c.get(1))
            .map(|m| m.as_str().as_bytes().to_vec());
        let got = extract_video_id(s.as_bytes());
        assert_eq!(got, expected, "divergence on {:?}", s);
    }
}
