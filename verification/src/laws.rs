//! The library's general guarantees, stated once, over the same spec
//! functions the executable functions' contracts use.

use vstd::prelude::*;
use crate::compose::lock_infix;
use crate::compose::spec_absence_reason;
use crate::compose::spec_description_without;
use crate::engine::spec_thumbnail_decision;
use crate::engine::spec_thumbnail_present;
use crate::engine::spec_title_outcome;
use crate::engine::ThumbnailDecision;
use crate::engine::TitleOutcome;
use crate::model::ThumbnailCandidate;
use crate::model::ThumbnailMode;
use crate::model::TitleCandidate;
use crate::numfmt::dec_int;

verus! {

/// An unlocked title candidate with net-negative votes is community-flagged
/// as wrong: whatever else the response holds, the trust gate rejects it
/// and the engine produces no reply for the message.
pub proof fn law_untrusted_title_no_reply(titles: Seq<TitleCandidate>)
    requires
        titles.len() > 0,
        !titles[0].locked,
        titles[0].votes < 0,
    ensures
        spec_title_outcome(titles) == TitleOutcome::UntrustedTitle,
{
}

/// A locked title candidate is authoritative: the engine proceeds with it
/// regardless of the sign of its vote score.
pub proof fn law_locked_title_proceeds(titles: Seq<TitleCandidate>)
    requires
        titles.len() > 0,
        titles[0].locked,
    ensures
        spec_title_outcome(titles) == TitleOutcome::Accepted,
{
}

/// Under policy `OnlyLocked`, an unlocked thumbnail candidate is never
/// fetched, even when its vote score passes the trust gate; the reply
/// degrades to title-only and its descriptive line carries exactly the
/// lock-only reason.
pub proof fn law_lock_only_rejects_unlocked(thumbs: Seq<ThumbnailCandidate>, tv: int, tl: bool)
    requires
        thumbs.len() > 0,
        !thumbs[0].locked,
        thumbs[0].votes >= 0,
    ensures
        spec_thumbnail_decision(ThumbnailMode::OnlyLocked, thumbs) == ThumbnailDecision::Skip,
        forall|fetch_succeeded: bool|
            !spec_thumbnail_present(
                spec_thumbnail_decision(ThumbnailMode::OnlyLocked, thumbs),
                fetch_succeeded,
            ),
        spec_description_without(tv, tl, ThumbnailMode::OnlyLocked) == "Title: "@ + dec_int(tv)
            + " votes, is"@ + lock_infix(tl) + "locked; Thumbnail: "@
            + "disabled by dev (lock-only)"@,
{
}

/// Under policy `Disabled` the engine never decides to fetch a thumbnail
/// image, whatever candidates the service returned; no thumbnail fetch
/// call is ever issued.
pub proof fn law_disabled_never_fetches(thumbs: Seq<ThumbnailCandidate>)
    ensures
        spec_thumbnail_decision(ThumbnailMode::Disabled, thumbs) == ThumbnailDecision::Skip,
{
}

/// A thumbnail fetch failure is non-fatal: the selection simply carries no
/// thumbnail — whatever was decided — and composition still produces the
/// title-only reply, whose descriptive line reports the policy's absence
/// reason (see `compose_reply`).
pub proof fn law_fetch_failure_degrades(
    decision: ThumbnailDecision,
    tv: int,
    tl: bool,
    mode: ThumbnailMode,
)
    ensures
        !spec_thumbnail_present(decision, false),
        spec_description_without(tv, tl, mode) == "Title: "@ + dec_int(tv) + " votes, is"@
            + lock_infix(tl) + "locked; Thumbnail: "@ + spec_absence_reason(mode),
{
}

} // verus!
