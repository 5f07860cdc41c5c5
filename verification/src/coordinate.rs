//! Preview-suppression coordination: after the reply is sent, whether and
//! how to suppress the platform's own auto-generated preview on the
//! original message.

use vstd::prelude::*;
use crate::model::ThumbnailMode;

verus! {

/// Upper bound, in milliseconds, on the wait for the platform to render
/// its own preview before the suppression edit is issued.
pub const RENDER_WAIT_MILLIS: u64 = 5000;

/// What to do about the platform's own preview of the original message
/// once the reply has been sent.
#[derive(Clone, Copy, Debug, PartialEq, Eq, Structural)]
pub enum SuppressPlan {
    /// Leave the original message alone.
    LeaveAlone,
    /// Issue the suppression edit at once: the platform has already
    /// rendered at least one preview.
    SuppressNow,
    /// No preview is rendered yet: wait for a message-update notification
    /// matching the original message, bounded by `RENDER_WAIT_MILLIS`, and
    /// issue the suppression edit whether or not one arrives in time. A
    /// failing edit is non-fatal.
    AwaitRenderAndSuppress,
}

/// Suppression runs only when the policy allows thumbnails at all, a
/// thumbnail was actually attached to the reply, and the operator enabled
/// preview removal.
pub open spec fn spec_suppression_active(
    mode: ThumbnailMode,
    thumbnail_attached: bool,
    remove_embed: bool,
) -> bool {
    mode != ThumbnailMode::Disabled && thumbnail_attached && remove_embed
}

/// The plan for one sent reply, given how many previews the platform has
/// rendered on the original message so far.
pub open spec fn spec_suppress_plan(
    mode: ThumbnailMode,
    thumbnail_attached: bool,
    remove_embed: bool,
    preview_count: int,
) -> SuppressPlan {
    if !spec_suppression_active(mode, thumbnail_attached, remove_embed) {
        SuppressPlan::LeaveAlone
    } else if preview_count == 0 {
        SuppressPlan::AwaitRenderAndSuppress
    } else {
        SuppressPlan::SuppressNow
    }
}

/// Plans the preview-suppression side effect for one sent reply.
pub fn plan_suppression(
    mode: ThumbnailMode,
    thumbnail_attached: bool,
    remove_embed: bool,
    preview_count: usize,
) -> (r: SuppressPlan)
    ensures
        r == spec_suppress_plan(mode, thumbnail_attached, remove_embed, preview_count as int),
{
    if mode == ThumbnailMode::Disabled || !thumbnail_attached || !remove_embed {
        SuppressPlan::LeaveAlone
    } else if preview_count == 0 {
        SuppressPlan::AwaitRenderAndSuppress
    } else {
        SuppressPlan::SuppressNow
    }
}

} // verus!
