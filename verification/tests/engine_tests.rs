use declickbait::compose::attachment_name;
use declickbait::compose::compose_reply;
use declickbait::compose::footer_text;
use declickbait::coordinate::plan_suppression;
use declickbait::coordinate::SuppressPlan;
use declickbait::coordinate::RENDER_WAIT_MILLIS;
use declickbait::engine::build_selection;
use declickbait::engine::decide_thumbnail;
use declickbait::engine::evaluate_titles;
use declickbait::engine::finish_thumbnail;
use declickbait::engine::ThumbnailChoice;
use declickbait::engine::ThumbnailDecision;
use declickbait::engine::TitleOutcome;
use declickbait::model::parse_thumbnail_mode;
use declickbait::model::mode_text;
use declickbait::model::ThumbnailCandidate;
use declickbait::model::ThumbnailMode;
use declickbait::model::TitleCandidate;
use declickbait::numfmt::i64_to_string;
use declickbait::requests::branding_url;
use declickbait::requests::thumbnail_url;

fn title(votes: i64, locked: bool) -> TitleCandidate {
    TitleCandidate {
        text: "A calm, factual title".to_string(),
        original: false,
        votes,
        locked,
        uuid: "t-1".to_string(),
    }
}

fn thumb(votes: i64, locked: bool) -> ThumbnailCandidate {
    ThumbnailCandidate {
        timestamp: Some("12.5".to_string()),
        original: false,
        votes,
        locked,
        uuid: "h-1".to_string(),
    }
}

#[test]
fn empty_title_list_is_a_no_op() {
    assert_eq!(evaluate_titles(&vec![]), TitleOutcome::NoTitles);
}

#[test]
fn unlocked_negative_title_is_rejected() {
    assert_eq!(evaluate_titles(&vec![title(-1, false)]), TitleOutcome::UntrustedTitle);
}

#[test]
fn locked_negative_title_is_accepted() {
    assert_eq!(evaluate_titles(&vec![title(-100, true)]), TitleOutcome::Accepted);
}

#[test]
fn unlocked_non_negative_title_is_accepted() {
    assert_eq!(evaluate_titles(&vec![title(0, false)]), TitleOutcome::Accepted);
}

#[test]
fn only_first_title_candidate_counts() {
    let r = evaluate_titles(&vec![title(-5, false), title(100, true)]);
    assert_eq!(r, TitleOutcome::UntrustedTitle);
}

#[test]
fn disabled_mode_never_fetches() {
    let r = decide_thumbnail(ThumbnailMode::Disabled, &vec![thumb(100, true)]);
    assert_eq!(r, ThumbnailDecision::Skip);
}

#[test]
fn no_candidates_means_no_fetch() {
    assert_eq!(decide_thumbnail(ThumbnailMode::Enabled, &vec![]), ThumbnailDecision::Skip);
}

#[test]
fn untrusted_thumbnail_is_skipped() {
    let r = decide_thumbnail(ThumbnailMode::Enabled, &vec![thumb(-2, false)]);
    assert_eq!(r, ThumbnailDecision::Skip);
}

#[test]
fn trusted_thumbnail_is_fetched_when_enabled() {
    let r = decide_thumbnail(ThumbnailMode::Enabled, &vec![thumb(10, false)]);
    assert_eq!(r, ThumbnailDecision::Fetch);
}

#[test]
fn lock_only_mode_skips_unlocked_candidates() {
    let r = decide_thumbnail(ThumbnailMode::OnlyLocked, &vec![thumb(10, false)]);
    assert_eq!(r, ThumbnailDecision::Skip);
}

#[test]
fn lock_only_mode_fetches_locked_candidates() {
    let r = decide_thumbnail(ThumbnailMode::OnlyLocked, &vec![thumb(-4, true)]);
    assert_eq!(r, ThumbnailDecision::Fetch);
}

#[test]
fn successful_fetch_carries_the_image() {
    let r = finish_thumbnail(ThumbnailDecision::Fetch, Some(vec![1, 2, 3]), 7, true);
    match r {
        Some(ThumbnailChoice { image, votes, locked }) => {
            assert_eq!(image, vec![1, 2, 3]);
            assert_eq!(votes, 7);
            assert!(locked);
        }
        None => panic!("expected a thumbnail"),
    }
}

#[test]
fn failed_fetch_degrades_to_no_thumbnail() {
    let r = finish_thumbnail(ThumbnailDecision::Fetch, None, 7, true);
    assert!(r.is_none());
}

#[test]
fn skipped_fetch_carries_no_thumbnail() {
    let r = finish_thumbnail(ThumbnailDecision::Skip, None, 7, true);
    assert!(r.is_none());
}

#[test]
fn reply_with_thumbnail_reports_both_candidates() {
    let sel = build_selection(
        &title(50, true),
        Some(ThumbnailChoice { image: vec![9, 9], votes: 10, locked: false }),
    );
    let reply = compose_reply(ThumbnailMode::Enabled, sel);
    assert_eq!(reply.title, "A calm, factual title");
    assert_eq!(reply.image, Some(vec![9, 9]));
    assert_eq!(
        reply.description,
        "Title: 50 votes, is locked; Thumbnail: 10 votes, is not locked"
    );
    assert_eq!(reply.footer, "De-Clickbait provided by DeArrow API.");
}

#[test]
fn reply_without_thumbnail_reports_the_reason() {
    let sel = build_selection(&title(-3, true), None);
    let reply = compose_reply(ThumbnailMode::Disabled, sel);
    assert!(reply.image.is_none());
    assert_eq!(reply.description, "Title: -3 votes, is locked; Thumbnail: disabled by dev");
}

#[test]
fn attachment_name_is_fixed() {
    assert_eq!(attachment_name(), "thumb.webp");
    assert_eq!(footer_text(), "De-Clickbait provided by DeArrow API.");
}

#[test]
fn mode_words_parse_case_insensitively() {
    assert_eq!(parse_thumbnail_mode(b"disabled"), Some(ThumbnailMode::Disabled));
    assert_eq!(parse_thumbnail_mode(b"Enabled"), Some(ThumbnailMode::Enabled));
    assert_eq!(parse_thumbnail_mode(b"ONLYLOCKED"), Some(ThumbnailMode::OnlyLocked));
    assert_eq!(parse_thumbnail_mode(b"OnlyLocked"), Some(ThumbnailMode::OnlyLocked));
    assert_eq!(parse_thumbnail_mode(b"sometimes"), None);
    assert_eq!(parse_thumbnail_mode(b""), None);
}

#[test]
fn mode_text_round_trips_through_parse() {
    for m in [ThumbnailMode::Disabled, ThumbnailMode::Enabled, ThumbnailMode::OnlyLocked] {
        assert_eq!(parse_thumbnail_mode(mode_text(m).as_bytes()), Some(m));
    }
}

#[test]
fn vote_scores_render_in_decimal() {
    assert_eq!(i64_to_string(0), "0");
    assert_eq!(i64_to_string(50), "50");
    assert_eq!(i64_to_string(-3), "-3");
    assert_eq!(i64_to_string(1234567890), "1234567890");
    assert_eq!(i64_to_string(i64::MAX), "9223372036854775807");
    assert_eq!(i64_to_string(i64::MIN), "-9223372036854775808");
}

#[test]
fn branding_url_carries_the_identifier() {
    assert_eq!(
        branding_url("dQw4w9WgXcQ"),
        "https://sponsor.ajay.app/api/branding?videoID=dQw4w9WgXcQ"
    );
}

#[test]
fn thumbnail_url_appends_the_timestamp_only_when_present() {
    assert_eq!(
        thumbnail_url("dQw4w9WgXcQ", Some(&"12.5".to_string())),
        "https://dearrow-thumb.ajay.app/api/v1/getThumbnail?videoID=dQw4w9WgXcQ&time=12.5"
    );
    assert_eq!(
        thumbnail_url("dQw4w9WgXcQ", None),
        "https://dearrow-thumb.ajay.app/api/v1/getThumbnail?videoID=dQw4w9WgXcQ"
    );
}

#[test]
fn suppression_only_runs_when_armed() {
    let p = plan_suppression(ThumbnailMode::Disabled, true, true, 0);
    assert_eq!(p, SuppressPlan::LeaveAlone);
    let p = plan_suppression(ThumbnailMode::Enabled, false, true, 0);
    assert_eq!(p, SuppressPlan::LeaveAlone);
    let p = plan_suppression(ThumbnailMode::Enabled, true, false, 0);
    assert_eq!(p, SuppressPlan::LeaveAlone);
}

#[test]
fn suppression_waits_only_while_no_preview_is_rendered() {
    let p = plan_suppression(ThumbnailMode::OnlyLocked, true, true, 0);
    assert_eq!(p, SuppressPlan::AwaitRenderAndSuppress);
    let p = plan_suppression(ThumbnailMode::OnlyLocked, true, true, 2);
    assert_eq!(p, SuppressPlan::SuppressNow);
}

#[test]
fn render_wait_is_five_seconds() {
    assert_eq!(RENDER_WAIT_MILLIS, 5000);
}
