//! The exact request URLs of the two metadata services. Building the URL is
//! the engine's part; performing the HTTP round trip is left to the process
//! around the library.

use vstd::prelude::*;
use vstd::string::StringExecFns;

verus! {

/// The metadata lookup URL for a video: the branding endpoint with the
/// identifier as its query parameter.
pub open spec fn spec_branding_url(id: Seq<char>) -> Seq<char> {
    "https://sponsor.ajay.app/api/branding?videoID="@ + id
}

/// Builds the metadata lookup URL for `video_id`.
pub fn branding_url(video_id: &str) -> (r: String)
    ensures
        r@ == spec_branding_url(video_id@),
{
    let mut out = String::new();
    out.append("https://sponsor.ajay.app/api/branding?videoID=");
    out.append(video_id);
    proof {
        assert(out@ =~= spec_branding_url(video_id@));
    }
    out
}

/// The thumbnail image URL for a video: the thumbnail endpoint with the
/// identifier, and a `&time=` parameter exactly when the candidate carries
/// a timestamp.
pub open spec fn spec_thumbnail_url(id: Seq<char>, time: Option<Seq<char>>) -> Seq<char> {
    match time {
        Some(t) => "https://dearrow-thumb.ajay.app/api/v1/getThumbnail?videoID="@ + id + "&time="@
            + t,
        None => "https://dearrow-thumb.ajay.app/api/v1/getThumbnail?videoID="@ + id,
    }
}

/// Builds the thumbnail image URL for `video_id`, appending the timestamp
/// parameter only when one is present.
pub fn thumbnail_url(video_id: &str, time: Option<&String>) -> (r: String)
    ensures
        time matches Some(t) ==> r@ == spec_thumbnail_url(video_id@, Some(t@)),
        time is None ==> r@ == spec_thumbnail_url(video_id@, None),
{
    let mut out = String::new();
    out.append("https://dearrow-thumb.ajay.app/api/v1/getThumbnail?videoID=");
    out.append(video_id);
    match time {
        Some(t) => {
            out.append("&time=");
            out.append(t.as_str());
            proof {
                assert(out@ =~= spec_thumbnail_url(video_id@, Some(time.unwrap()@)));
            }
        },
        None => {
            proof {
                assert(out@ =~= spec_thumbnail_url(video_id@, None));
            }
        },
    }
    out
}

} // verus!
