//! The trust & selection engine: the decision core that, given one
//! metadata response and the configured policy, decides whether a reply is
//! produced at all, whether a thumbnail image is fetched, and what the
//! selection handed to the composer holds.

use vstd::prelude::*;
use crate::model::ThumbnailCandidate;
use crate::model::ThumbnailMode;
use crate::model::TitleCandidate;
use crate::model::candidate_trusted;

verus! {

/// Outcome of inspecting the title candidates of a metadata response.
#[derive(Clone, Copy, Debug, PartialEq, Eq, Structural)]
pub enum TitleOutcome {
    /// The service returned no title candidate: terminal no-op for the
    /// message.
    NoTitles,
    /// The first-ranked candidate is unlocked with net-negative votes:
    /// community-flagged as wrong, terminal no-op for the message.
    UntrustedTitle,
    /// The first-ranked candidate passed the trust gate and is the chosen
    /// title.
    Accepted,
}

/// The outcome the trust gate assigns to a title list. Only the first-ranked
/// candidate is consulted; ranking is the metadata service's, never
/// recomputed locally.
pub open spec fn spec_title_outcome(titles: Seq<TitleCandidate>) -> TitleOutcome {
    if titles.len() == 0 {
        TitleOutcome::NoTitles
    } else if candidate_trusted(titles[0].locked, titles[0].votes as int) {
        TitleOutcome::Accepted
    } else {
        TitleOutcome::UntrustedTitle
    }
}

/// Applies the trust gate to the title candidates of a response.
pub fn evaluate_titles(titles: &Vec<TitleCandidate>) -> (r: TitleOutcome)
    ensures
        r == spec_title_outcome(titles@),
{
    if titles.len() == 0 {
        TitleOutcome::NoTitles
    } else {
        let t = &titles[0];
        if t.locked || t.votes >= 0 {
            TitleOutcome::Accepted
        } else {
            TitleOutcome::UntrustedTitle
        }
    }
}

/// Decision for the thumbnail branch of one message.
#[derive(Clone, Copy, Debug, PartialEq, Eq, Structural)]
pub enum ThumbnailDecision {
    /// No thumbnail image is fetched.
    Skip,
    /// The first candidate's image is fetched, at its optional timestamp.
    Fetch,
}

/// Whether the engine fetches a thumbnail image: only when the policy
/// allows thumbnails at all, a candidate exists, the candidate passes the
/// trust gate, and — under `OnlyLocked` — the candidate is locked.
///
/// The intended gating is stated here once: thumbnails are considered
/// whenever the policy is *not* `Disabled`; `Disabled` alone turns the
/// whole branch off.
pub open spec fn spec_thumbnail_decision(
    mode: ThumbnailMode,
    thumbs: Seq<ThumbnailCandidate>,
) -> ThumbnailDecision {
    if mode != ThumbnailMode::Disabled && thumbs.len() > 0 && candidate_trusted(
        thumbs[0].locked,
        thumbs[0].votes as int,
    ) && (thumbs[0].locked || mode != ThumbnailMode::OnlyLocked) {
        ThumbnailDecision::Fetch
    } else {
        ThumbnailDecision::Skip
    }
}

/// Applies the policy and the trust gate to the thumbnail candidates of a
/// response. An untrusted candidate, and an unlocked one under
/// `OnlyLocked`, only drop the thumbnail; the title-only reply still
/// proceeds.
pub fn decide_thumbnail(mode: ThumbnailMode, thumbs: &Vec<ThumbnailCandidate>) -> (r:
    ThumbnailDecision)
    ensures
        r == spec_thumbnail_decision(mode, thumbs@),
{
    if mode == ThumbnailMode::Disabled {
        return ThumbnailDecision::Skip;
    }
    if thumbs.len() == 0 {
        return ThumbnailDecision::Skip;
    }
    let t = &thumbs[0];
    if !t.locked && t.votes < 0 {
        return ThumbnailDecision::Skip;
    }
    if !t.locked && mode == ThumbnailMode::OnlyLocked {
        return ThumbnailDecision::Skip;
    }
    ThumbnailDecision::Fetch
}

/// A fetched thumbnail image together with the candidate's trust facts, as
/// the composer reports them.
pub struct ThumbnailChoice {
    /// The fetched image bytes.
    pub image: Vec<u8>,
    /// Net community vote score of the thumbnail candidate.
    pub votes: i64,
    /// Whether the thumbnail candidate is locked.
    pub locked: bool,
}

/// Whether the reply will carry a thumbnail: a fetch was decided and the
/// fetch succeeded.
pub open spec fn spec_thumbnail_present(
    decision: ThumbnailDecision,
    fetch_succeeded: bool,
) -> bool {
    decision == ThumbnailDecision::Fetch && fetch_succeeded
}

/// Folds the thumbnail fetch's outcome into the optional thumbnail of the
/// selection. `fetched` is what the image service returned; `None` stands
/// both for "no fetch was decided" and for a failed fetch — a failure is
/// non-fatal and only degrades the reply to title-only.
pub fn finish_thumbnail(
    decision: ThumbnailDecision,
    fetched: Option<Vec<u8>>,
    votes: i64,
    locked: bool,
) -> (r: Option<ThumbnailChoice>)
    ensures
        (r is Some) == spec_thumbnail_present(decision, fetched is Some),
        r matches Some(c) ==> fetched matches Some(img) && c.image@ == img@ && c.votes == votes
            && c.locked == locked,
{
    match decision {
        ThumbnailDecision::Fetch => match fetched {
            Some(img) => Some(ThumbnailChoice { image: img, votes, locked }),
            None => None,
        },
        ThumbnailDecision::Skip => None,
    }
}

/// The decision engine's output: the chosen title's fields and, optionally,
/// a fetched thumbnail. Only ever built from a response whose first title
/// candidate passed the trust gate; consumed at once by the composer.
pub struct Selection {
    /// Text of the chosen replacement title.
    pub title_text: String,
    /// Net community vote score of the chosen title.
    pub title_votes: i64,
    /// Whether the chosen title is locked.
    pub title_locked: bool,
    /// The thumbnail to attach, when one was selected and fetched.
    pub thumbnail: Option<ThumbnailChoice>,
}

/// Combines the accepted title with the thumbnail branch's result into a
/// selection.
pub fn build_selection(title: &TitleCandidate, thumb: Option<ThumbnailChoice>) -> (r: Selection)
    requires
        candidate_trusted(title.locked, title.votes as int),
    ensures
        r.title_text@ == title.text@,
        r.title_votes == title.votes,
        r.title_locked == title.locked,
        r.thumbnail == thumb,
{
    Selection {
        title_text: title.text.clone(),
        title_votes: title.votes,
        title_locked: title.locked,
        thumbnail: thumb,
    }
}

} // verus!
