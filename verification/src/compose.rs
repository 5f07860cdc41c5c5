//! Reply composition: the exact text of the reply artifact built from a
//! selection — headline, descriptive line, attribution footer, and the
//! optional attached image.

use vstd::prelude::*;
use vstd::string::StringExecFns;
use crate::engine::Selection;
use crate::model::ThumbnailMode;
use crate::numfmt::dec_int;
use crate::numfmt::push_dec_i64;

verus! {

/// The reply artifact: at most one attached image, an embed headline (the
/// chosen title), a descriptive line, and a fixed attribution footer. The
/// embed references the attached image, under `attachment_name`, as its
/// visual when one is present.
pub struct Reply {
    /// Image to attach, when a thumbnail was selected and fetched.
    pub image: Option<Vec<u8>>,
    /// The embed headline: the chosen replacement title.
    pub title: String,
    /// The descriptive line reporting votes and lock states and, without a
    /// thumbnail, the reason none is attached.
    pub description: String,
    /// The fixed attribution footer.
    pub footer: String,
}

/// The infix joining `is` to `locked` in the descriptive line.
pub open spec fn lock_infix(locked: bool) -> Seq<char> {
    if locked {
        " "@
    } else {
        " not "@
    }
}

/// The human-readable reason no thumbnail is attached. It is determined by
/// the policy alone: disabled outright, allowed but no usable candidate or
/// failed fetch, or suppressed by the lock-only deployment mode.
pub open spec fn spec_absence_reason(mode: ThumbnailMode) -> Seq<char> {
    match mode {
        ThumbnailMode::Disabled => "disabled by dev"@,
        ThumbnailMode::Enabled => "not found"@,
        ThumbnailMode::OnlyLocked => "disabled by dev (lock-only)"@,
    }
}

/// The descriptive line when a thumbnail is attached: both vote counts and
/// both lock states, in human-readable form.
pub open spec fn spec_description_with(tv: int, tl: bool, hv: int, hl: bool) -> Seq<char> {
    "Title: "@ + dec_int(tv) + " votes, is"@ + lock_infix(tl) + "locked; Thumbnail: "@ + dec_int(
        hv,
    ) + " votes, is"@ + lock_infix(hl) + "locked"@
}

/// The descriptive line when no thumbnail is attached: the title's votes
/// and lock state, and the reason for the absence.
pub open spec fn spec_description_without(tv: int, tl: bool, mode: ThumbnailMode) -> Seq<char> {
    "Title: "@ + dec_int(tv) + " votes, is"@ + lock_infix(tl) + "locked; Thumbnail: "@
        + spec_absence_reason(mode)
}

/// The fixed attribution footer of every reply.
pub open spec fn spec_footer() -> Seq<char> {
    "De-Clickbait provided by DeArrow API."@
}

/// The name under which the image is attached and referenced by the embed.
pub open spec fn spec_attachment_name() -> Seq<char> {
    "thumb.webp"@
}

/// Builds the attribution footer.
pub fn footer_text() -> (r: String)
    ensures
        r@ == spec_footer(),
{
    "De-Clickbait provided by DeArrow API.".to_owned()
}

/// Builds the attachment name.
pub fn attachment_name() -> (r: String)
    ensures
        r@ == spec_attachment_name(),
{
    "thumb.webp".to_owned()
}

fn append_lock_infix(out: &mut String, locked: bool)
    ensures
        final (out)@ == old(out)@ + lock_infix(locked),
{
    if locked {
        out.append(" ");
    } else {
        out.append(" not ");
    }
}

fn append_absence_reason(out: &mut String, mode: ThumbnailMode)
    ensures
        final (out)@ == old(out)@ + spec_absence_reason(mode),
{
    match mode {
        ThumbnailMode::Disabled => out.append("disabled by dev"),
        ThumbnailMode::Enabled => out.append("not found"),
        ThumbnailMode::OnlyLocked => out.append("disabled by dev (lock-only)"),
    }
}

/// Composes the reply for a selection under the configured policy: headline
/// and footer always, the image and the full two-part descriptive line when
/// a thumbnail is present, the absence reason otherwise. Every branch
/// produces a reply; the absence of a thumbnail never aborts composition.
pub fn compose_reply(mode: ThumbnailMode, sel: Selection) -> (r: Reply)
    ensures
        r.title@ == sel.title_text@,
        r.footer@ == spec_footer(),
        (r.image is Some) == (sel.thumbnail is Some),
        sel.thumbnail matches Some(c) ==> r.image matches Some(img) && img@ == c.image@
            && r.description@ == spec_description_with(
            sel.title_votes as int,
            sel.title_locked,
            c.votes as int,
            c.locked,
        ),
        sel.thumbnail is None ==> r.image is None && r.description@ == spec_description_without(
            sel.title_votes as int,
            sel.title_locked,
            mode,
        ),
{
    let mut d = String::new();
    d.append("Title: ");
    push_dec_i64(&mut d, sel.title_votes);
    d.append(" votes, is");
    append_lock_infix(&mut d, sel.title_locked);
    d.append("locked; Thumbnail: ");
    match sel.thumbnail {
        Some(c) => {
            push_dec_i64(&mut d, c.votes);
            d.append(" votes, is");
            append_lock_infix(&mut d, c.locked);
            d.append("locked");
            proof {
                assert(d@ =~= spec_description_with(
                    sel.title_votes as int,
                    sel.title_locked,
                    c.votes as int,
                    c.locked,
                ));
            }
            Reply {
                image: Some(c.image),
                title: sel.title_text,
                description: d,
                footer: footer_text(),
            }
        },
        None => {
            append_absence_reason(&mut d, mode);
            proof {
                assert(d@ =~= spec_description_without(
                    sel.title_votes as int,
                    sel.title_locked,
                    mode,
                ));
            }
            Reply { image: None, title: sel.title_text, description: d, footer: footer_text() }
        },
    }
}

} // verus!
