//! Data model: the candidates served by the metadata service, the policy
//! under which thumbnails are used, and the trust predicate over
//! crowd-sourced candidates.

use vstd::prelude::*;

verus! {

/// Process-wide policy for replacement thumbnails, fixed at startup and
/// read-only afterwards.
#[derive(Clone, Copy, Debug, PartialEq, Eq, Structural)]
pub enum ThumbnailMode {
    /// Never fetch or attach a replacement thumbnail.
    Disabled,
    /// Attach a replacement thumbnail whenever a trusted candidate exists.
    Enabled,
    /// Attach a replacement thumbnail only when the candidate is locked.
    OnlyLocked,
}

/// A crowd-sourced replacement title for a video.
pub struct TitleCandidate {
    /// The replacement title text.
    pub text: String,
    /// Whether this candidate is merely the original title recapitalized.
    pub original: bool,
    /// Net community vote score.
    pub votes: i64,
    /// Whether the candidate has reached consensus status.
    pub locked: bool,
    /// Server-side identifier of the candidate.
    pub uuid: String,
}

/// A crowd-sourced replacement thumbnail for a video.
pub struct ThumbnailCandidate {
    /// Video timestamp the thumbnail is taken at, in seconds, already
    /// rendered as decimal text; absent when the candidate has none.
    pub timestamp: Option<String>,
    /// Whether this candidate is the original thumbnail frame.
    pub original: bool,
    /// Net community vote score.
    pub votes: i64,
    /// Whether the candidate has reached consensus status.
    pub locked: bool,
    /// Server-side identifier of the candidate.
    pub uuid: String,
}

/// One metadata lookup's result, produced fresh per message and discarded
/// after the message is handled. Candidates are served best first; only the
/// first of each list is ever consumed. The wire response also carries two
/// timing fields (a random selection time and the video duration) that no
/// decision reads; they stay outside the library.
pub struct MetadataResponse {
    /// Replacement title candidates, best first.
    pub titles: Vec<TitleCandidate>,
    /// Replacement thumbnail candidates, best first.
    pub thumbnails: Vec<ThumbnailCandidate>,
}

/// A candidate is trusted when it is locked (consensus reached, authoritative
/// regardless of raw votes) or its net vote score is non-negative.
pub open spec fn candidate_trusted(locked: bool, votes: int) -> bool {
    locked || votes >= 0
}

/// ASCII lower-casing of one byte.
pub open spec fn lower_byte(b: u8) -> u8 {
    if 65 <= b && b <= 90 {  // 'A' ..= 'Z'
        (b + 32) as u8
    } else {
        b
    }
}

/// ASCII lower-casing of a byte string.
pub open spec fn lower_bytes(s: Seq<u8>) -> Seq<u8> {
    s.map_values(|b: u8| lower_byte(b))
}

/// The configuration word for `Disabled`, lower case.
pub open spec fn disabled_word() -> Seq<u8> {
    seq![100u8, 105u8, 115u8, 97u8, 98u8, 108u8, 101u8, 100u8]  // "disabled"
}

/// The configuration word for `Enabled`, lower case.
pub open spec fn enabled_word() -> Seq<u8> {
    seq![101u8, 110u8, 97u8, 98u8, 108u8, 101u8, 100u8]  // "enabled"
}

/// The configuration word for `OnlyLocked`, lower case.
pub open spec fn onlylocked_word() -> Seq<u8> {
    seq![111u8, 110u8, 108u8, 121u8, 108u8, 111u8, 99u8, 107u8, 101u8, 100u8]  // "onlylocked"
}

/// Which mode a configuration word denotes, compared case-insensitively;
/// `None` for any other word.
pub open spec fn spec_parse_mode(s: Seq<u8>) -> Option<ThumbnailMode> {
    if lower_bytes(s) == disabled_word() {
        Some(ThumbnailMode::Disabled)
    } else if lower_bytes(s) == enabled_word() {
        Some(ThumbnailMode::Enabled)
    } else if lower_bytes(s) == onlylocked_word() {
        Some(ThumbnailMode::OnlyLocked)
    } else {
        None
    }
}

fn to_lower(b: u8) -> (r: u8)
    ensures
        r == lower_byte(b),
{
    if 65 <= b && b <= 90 {  // 'A' ..= 'Z'
        b + 32
    } else {
        b
    }
}

fn disabled_pat() -> (v: Vec<u8>)
    ensures
        v@ == disabled_word(),
{
    let mut v: Vec<u8> = Vec::new();
    v.push(100u8);
    v.push(105u8);
    v.push(115u8);
    v.push(97u8);
    v.push(98u8);
    v.push(108u8);
    v.push(101u8);
    v.push(100u8);
    proof {
        assert(v@ =~= disabled_word());
    }
    v
}

fn enabled_pat() -> (v: Vec<u8>)
    ensures
        v@ == enabled_word(),
{
    let mut v: Vec<u8> = Vec::new();
    v.push(101u8);
    v.push(110u8);
    v.push(97u8);
    v.push(98u8);
    v.push(108u8);
    v.push(101u8);
    v.push(100u8);
    proof {
        assert(v@ =~= enabled_word());
    }
    v
}

fn onlylocked_pat() -> (v: Vec<u8>)
    ensures
        v@ == onlylocked_word(),
{
    let mut v: Vec<u8> = Vec::new();
    v.push(111u8);
    v.push(110u8);
    v.push(108u8);
    v.push(121u8);
    v.push(108u8);
    v.push(111u8);
    v.push(99u8);
    v.push(107u8);
    v.push(101u8);
    v.push(100u8);
    proof {
        assert(v@ =~= onlylocked_word());
    }
    v
}

/// Case-insensitive comparison of `a` against an already lower-case word.
fn eq_lower(a: &[u8], pat: &Vec<u8>) -> (r: bool)
    ensures
        r == (lower_bytes(a@) == pat@),
{
    if a.len() != pat.len() {
        proof {
            assert(lower_bytes(a@).len() == a@.len());
        }
        return false;
    }
    let mut i: usize = 0;
    while i < a.len()
        invariant
            i <= a.len(),
            a@.len() == pat@.len(),
            forall|j: int| 0 <= j < i ==> lower_byte(a@[j]) == pat@[j],
        decreases a.len() - i,
    {
        if to_lower(a[i]) != pat[i] {
            proof {
                assert(lower_bytes(a@)[i as int] == lower_byte(a@[i as int]));
            }
            return false;
        }
        i += 1;
    }
    proof {
        assert(lower_bytes(a@) =~= pat@);
    }
    true
}

/// Parses a thumbnail-mode configuration word, case-insensitively.
pub fn parse_thumbnail_mode(s: &[u8]) -> (r: Option<ThumbnailMode>)
    ensures
        r == spec_parse_mode(s@),
{
    let d = disabled_pat();
    if eq_lower(s, &d) {
        return Some(ThumbnailMode::Disabled);
    }
    let e = enabled_pat();
    if eq_lower(s, &e) {
        return Some(ThumbnailMode::Enabled);
    }
    let o = onlylocked_pat();
    if eq_lower(s, &o) {
        return Some(ThumbnailMode::OnlyLocked);
    }
    None
}

/// The display name of a mode.
pub open spec fn spec_mode_text(m: ThumbnailMode) -> Seq<char> {
    match m {
        ThumbnailMode::Disabled => "Disabled"@,
        ThumbnailMode::Enabled => "Enabled"@,
        ThumbnailMode::OnlyLocked => "OnlyLocked"@,
    }
}

/// Renders a mode as its display name.
pub fn mode_text(m: ThumbnailMode) -> (r: String)
    ensures
        r@ == spec_mode_text(m),
{
    match m {
        ThumbnailMode::Disabled => "Disabled".to_owned(),
        ThumbnailMode::Enabled => "Enabled".to_owned(),
        ThumbnailMode::OnlyLocked => "OnlyLocked".to_owned(),
    }
}

} // verus!
