//! End-to-end runs of the per-message pipeline on fixed inputs, as the
//! process around the library drives it: extract, gate, decide, compose.

use declickbait::compose::compose_reply;
use declickbait::engine::build_selection;
use declickbait::engine::decide_thumbnail;
use declickbait::engine::evaluate_titles;
use declickbait::engine::finish_thumbnail;
use declickbait::engine::ThumbnailDecision;
use declickbait::engine::TitleOutcome;
use declickbait::link::extract_video_id;
use declickbait::model::MetadataResponse;
use declickbait::model::ThumbnailCandidate;
use declickbait::model::ThumbnailMode;
use declickbait::model::TitleCandidate;

#[test]
fn locked_title_without_thumbnails_gives_a_title_only_reply() {
    let text = "check https://youtu.be/dQw4w9WgXcQ out";
    let id = extract_video_id(text.as_bytes()).expect("link expected");
    assert_eq!(id, b"dQw4w9WgXcQ".to_vec());

    let response = MetadataResponse {
        titles: vec![TitleCandidate {
            text: "Rick Astley - Never Gonna Give You Up".to_string(),
            original: false,
            votes: 50,
            locked: true,
            uuid: "t-0".to_string(),
        }],
        thumbnails: vec![],
    };
    let mode = ThumbnailMode::Enabled;

    assert_eq!(evaluate_titles(&response.titles), TitleOutcome::Accepted);
    let decision = decide_thumbnail(mode, &response.thumbnails);
    assert_eq!(decision, ThumbnailDecision::Skip);
    let chosen = finish_thumbnail(decision, None, 0, false);
    let sel = build_selection(&response.titles[0], chosen);
    let reply = compose_reply(mode, sel);

    assert!(reply.image.is_none());
    assert_eq!(reply.title, "Rick Astley - Never Gonna Give You Up");
    assert!(reply.description.contains("50 votes, is locked; Thumbnail: not found"));
    assert_eq!(reply.description, "Title: 50 votes, is locked; Thumbnail: not found");
}

#[test]
fn unlocked_negative_title_produces_no_reply_at_all() {
    let text = "check https://youtu.be/dQw4w9WgXcQ out";
    let id = extract_video_id(text.as_bytes()).expect("link expected");
    assert_eq!(id, b"dQw4w9WgXcQ".to_vec());

    let response = MetadataResponse {
        titles: vec![TitleCandidate {
            text: "Rick Astley - Never Gonna Give You Up".to_string(),
            original: false,
            votes: -3,
            locked: false,
            uuid: "t-0".to_string(),
        }],
        thumbnails: vec![],
    };

    // the trust gate is the last word: the pipeline stops here and nothing
    // is composed or sent for this message
    assert_eq!(evaluate_titles(&response.titles), TitleOutcome::UntrustedTitle);
}

#[test]
fn lock_only_mode_gives_title_only_reply_without_fetching() {
    let response = MetadataResponse {
        titles: vec![TitleCandidate {
            text: "A vetted title".to_string(),
            original: false,
            votes: 5,
            locked: true,
            uuid: "t-0".to_string(),
        }],
        thumbnails: vec![ThumbnailCandidate {
            timestamp: Some("12.5".to_string()),
            original: false,
            votes: 10,
            locked: false,
            uuid: "h-0".to_string(),
        }],
    };
    let mode = ThumbnailMode::OnlyLocked;

    assert_eq!(evaluate_titles(&response.titles), TitleOutcome::Accepted);
    let decision = decide_thumbnail(mode, &response.thumbnails);
    // no call to the thumbnail-image endpoint is made for a skipped candidate
    assert_eq!(decision, ThumbnailDecision::Skip);
    let chosen = finish_thumbnail(decision, None, 10, false);
    assert!(chosen.is_none());
    let sel = build_selection(&response.titles[0], chosen);
    let reply = compose_reply(mode, sel);

    assert!(reply.image.is_none());
    assert_eq!(
        reply.description,
        "Title: 5 votes, is locked; Thumbnail: disabled by dev (lock-only)"
    );
}
