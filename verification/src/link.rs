//! Link extraction: scanning message text for a link to the video platform
//! and pulling out the 11-character video identifier.
//!
//! The recognized shapes are, in one grammar: either the shortener host
//! `youtu.be/`, or a long-form host (`youtube.com/` or
//! `youtube-nocookie.com/`) followed by one of three path forms — a fixed
//! segment (`v/`, `e/`, `embed/`), a query form (non-whitespace bytes, a `?`
//! or `&`, and `v=`), or a two-segment form (a segment with no slash and no
//! whitespace, a slash, a non-whitespace run, and a slash) — and in every
//! case an identifier of exactly 11 bytes from `[A-Za-z0-9_-]` directly
//! after. Text is handled as bytes; all grammar bytes are ASCII.

use vstd::prelude::*;

verus! {

/// A byte that may appear in a video identifier: `[A-Za-z0-9_-]`.
pub open spec fn is_id_byte(b: u8) -> bool {
    (65 <= b && b <= 90)  // 'A' ..= 'Z'
     || (97 <= b && b <= 122)  // 'a' ..= 'z'
     || (48 <= b && b <= 57)  // '0' ..= '9'
     || b == 95  // '_'
     || b == 45  // '-'

}

/// An ASCII whitespace byte; the grammar's non-whitespace classes exclude
/// exactly these.
pub open spec fn is_space_byte(b: u8) -> bool {
    b == 32 || b == 9 || b == 10 || b == 13 || b == 11 || b == 12
}

/// The shortener host with its trailing slash: `youtu.be/`.
pub open spec fn short_host() -> Seq<u8> {
    seq![121u8, 111u8, 117u8, 116u8, 117u8, 46u8, 98u8, 101u8, 47u8]
}

/// The canonical host with its trailing slash: `youtube.com/`.
pub open spec fn main_host() -> Seq<u8> {
    seq![121u8, 111u8, 117u8, 116u8, 117u8, 98u8, 101u8, 46u8, 99u8, 111u8, 109u8, 47u8]
}

/// The no-cookie host with its trailing slash: `youtube-nocookie.com/`.
pub open spec fn nocookie_host() -> Seq<u8> {
    seq![121u8, 111u8, 117u8, 116u8, 117u8, 98u8, 101u8, 45u8, 110u8, 111u8, 99u8, 111u8,
        111u8, 107u8, 105u8, 101u8, 46u8, 99u8, 111u8, 109u8, 47u8]
}

/// The fixed path segment `embed/`.
pub open spec fn embed_segment() -> Seq<u8> {
    seq![101u8, 109u8, 98u8, 101u8, 100u8, 47u8]
}

/// `pat` occurs in `s` starting at `i`.
pub open spec fn bytes_at(s: Seq<u8>, i: int, pat: Seq<u8>) -> bool {
    0 <= i && i + pat.len() <= s.len() && s.subrange(i, i + pat.len()) == pat
}

/// One of the two long-form hosts, with its trailing slash, ends at `r`.
pub open spec fn host_ends_at(s: Seq<u8>, r: int) -> bool {
    bytes_at(s, r - 12, main_host()) || bytes_at(s, r - 21, nocookie_host())
}

/// A fixed path segment (`v/`, `e/` or `embed/`) fills `s[r..q]`.
pub open spec fn fixed_path(s: Seq<u8>, r: int, q: int) -> bool {
    (q == r + 2 && 0 <= r && q <= s.len() && (s[r] == 118 || s[r] == 101)  // 'v' 'e'
     && s[r + 1] == 47)  // '/'
     || (q == r + 6 && bytes_at(s, r, embed_segment()))
}

/// A query path fills `s[r..q]`: a possibly empty run of non-whitespace
/// bytes, then `?` or `&`, then `v=`.
pub open spec fn query_path(s: Seq<u8>, r: int, q: int) -> bool {
    0 <= r && r <= q - 3 && q <= s.len() && (s[q - 3] == 63 || s[q - 3] == 38)  // '?' '&'
     && s[q - 2] == 118  // 'v'
     && s[q - 1] == 61  // '='
     && (forall|j: int| r <= j < q - 3 ==> !is_space_byte(s[j]))
}

/// A two-segment path fills `s[r..q]`, split at the slash at `f`: a first
/// segment `s[r..f]` with no slash and no whitespace, then a slash, then a
/// non-whitespace run `s[f+1..q-1]` (which may itself hold slashes), then a
/// final slash at `q - 1`. Both segments are non-empty.
pub open spec fn two_segment_split(s: Seq<u8>, r: int, f: int, q: int) -> bool {
    0 <= r && r < f && f + 1 < q - 1 && q <= s.len() && s[f] == 47  // '/'
     && s[q - 1] == 47  // '/'
     && (forall|j: int| r <= j < f ==> s[j] != 47 && !is_space_byte(s[j]))
     && (forall|j: int| f < j < q - 1 ==> !is_space_byte(s[j]))
}

/// A long-form host ends at some `r` and a fixed path fills `s[r..q]`.
pub open spec fn fixed_prefix_at(s: Seq<u8>, q: int) -> bool {
    exists|r: int| host_ends_at(s, r) && #[trigger] fixed_path(s, r, q)
}

/// A long-form host ends at some `r` and a query path fills `s[r..q]`.
pub open spec fn query_prefix_at(s: Seq<u8>, q: int) -> bool {
    exists|r: int| host_ends_at(s, r) && #[trigger] query_path(s, r, q)
}

/// A long-form host ends at some `r` and a two-segment path fills `s[r..q]`.
pub open spec fn two_segment_prefix_at(s: Seq<u8>, q: int) -> bool {
    exists|r: int, f: int|
        host_ends_at(s, r) && #[trigger] two_segment_split(s, r, f, q)
}

/// Some recognized link prefix ends at `q`.
pub open spec fn prefix_ends_at(s: Seq<u8>, q: int) -> bool {
    bytes_at(s, q - 9, short_host()) || fixed_prefix_at(s, q) || query_prefix_at(s, q)
        || two_segment_prefix_at(s, q)
}

/// Eleven identifier bytes start at `q`.
pub open spec fn id_run_at(s: Seq<u8>, q: int) -> bool {
    0 <= q && q + 11 <= s.len() && (forall|j: int| q <= j < q + 11 ==> is_id_byte(s[j]))
}

/// A recognized link whose identifier starts at `q` occurs in `s`.
pub open spec fn link_match_at(s: Seq<u8>, q: int) -> bool {
    prefix_ends_at(s, q) && id_run_at(s, q)
}

/// `s` holds at least one recognized link.
pub open spec fn has_link(s: Seq<u8>) -> bool {
    exists|q: int| #[trigger] link_match_at(s, q)
}

fn is_id_byte_x(b: u8) -> (r: bool)
    ensures
        r == is_id_byte(b),
{
    (65 <= b && b <= 90) || (97 <= b && b <= 122) || (48 <= b && b <= 57) || b == 95 || b == 45
}

fn is_space_byte_x(b: u8) -> (r: bool)
    ensures
        r == is_space_byte(b),
{
    b == 32 || b == 9 || b == 10 || b == 13 || b == 11 || b == 12
}

fn short_host_pat() -> (v: Vec<u8>)
    ensures
        v@ == short_host(),
{
    let mut v: Vec<u8> = Vec::new();
    v.push(121u8);
    v.push(111u8);
    v.push(117u8);
    v.push(116u8);
    v.push(117u8);
    v.push(46u8);
    v.push(98u8);
    v.push(101u8);
    v.push(47u8);
    proof {
        assert(v@ =~= short_host());
    }
    v
}

fn main_host_pat() -> (v: Vec<u8>)
    ensures
        v@ == main_host(),
{
    let mut v: Vec<u8> = Vec::new();
    v.push(121u8);
    v.push(111u8);
    v.push(117u8);
    v.push(116u8);
    v.push(117u8);
    v.push(98u8);
    v.push(101u8);
    v.push(46u8);
    v.push(99u8);
    v.push(111u8);
    v.push(109u8);
    v.push(47u8);
    proof {
        assert(v@ =~= main_host());
    }
    v
}

fn nocookie_host_pat() -> (v: Vec<u8>)
    ensures
        v@ == nocookie_host(),
{
    let mut v: Vec<u8> = Vec::new();
    v.push(121u8);
    v.push(111u8);
    v.push(117u8);
    v.push(116u8);
    v.push(117u8);
    v.push(98u8);
    v.push(101u8);
    v.push(45u8);
    v.push(110u8);
    v.push(111u8);
    v.push(99u8);
    v.push(111u8);
    v.push(111u8);
    v.push(107u8);
    v.push(105u8);
    v.push(101u8);
    v.push(46u8);
    v.push(99u8);
    v.push(111u8);
    v.push(109u8);
    v.push(47u8);
    proof {
        assert(v@ =~= nocookie_host());
    }
    v
}

fn embed_pat() -> (v: Vec<u8>)
    ensures
        v@ == embed_segment(),
{
    let mut v: Vec<u8> = Vec::new();
    v.push(101u8);
    v.push(109u8);
    v.push(98u8);
    v.push(101u8);
    v.push(100u8);
    v.push(47u8);
    proof {
        assert(v@ =~= embed_segment());
    }
    v
}

/// Whether `pat` occurs in `s` at `i`.
fn lit_at(s: &[u8], i: usize, pat: &Vec<u8>) -> (r: bool)
    ensures
        r == bytes_at(s@, i as int, pat@),
{
    let n = s.len();
    if i > n || pat.len() > n - i {
        return false;
    }
    let mut j: usize = 0;
    while j < pat.len()
        invariant
            s@.len() <= usize::MAX,
            i + pat@.len() <= s@.len(),
            j <= pat@.len(),
            forall|k: int| 0 <= k < j ==> s@[i + k] == pat@[k],
        decreases pat@.len() - j,
    {
        if s[i + j] != pat[j] {
            proof {
                assert(s@.subrange(i as int, i + pat@.len())[j as int] == s@[i + j]);
            }
            return false;
        }
        j += 1;
    }
    proof {
        assert(s@.subrange(i as int, i + pat@.len()) =~= pat@);
    }
    true
}

/// Whether a long-form host ends at `r`.
fn host_ends_at_x(s: &[u8], r: usize, main: &Vec<u8>, noco: &Vec<u8>) -> (b: bool)
    requires
        main@ == main_host(),
        noco@ == nocookie_host(),
    ensures
        b == host_ends_at(s@, r as int),
{
    if r >= 12 && lit_at(s, r - 12, main) {
        return true;
    }
    if r >= 21 && lit_at(s, r - 21, noco) {
        return true;
    }
    false
}

/// Whether eleven identifier bytes start at `q`.
fn check_id_run(s: &[u8], q: usize) -> (b: bool)
    ensures
        b == id_run_at(s@, q as int),
{
    let n = s.len();
    if q > n || n - q < 11 {
        return false;
    }
    let mut j: usize = 0;
    while j < 11
        invariant
            s@.len() <= usize::MAX,
            q + 11 <= s@.len(),
            j <= 11,
            forall|k: int| q <= k < q + j ==> is_id_byte(s@[k]),
        decreases 11 - j,
    {
        if !is_id_byte_x(s[q + j]) {
            return false;
        }
        j += 1;
    }
    true
}

/// Whether a host plus fixed path segment ends at `q`.
fn check_fixed(s: &[u8], q: usize, main: &Vec<u8>, noco: &Vec<u8>, emb: &Vec<u8>) -> (b: bool)
    requires
        main@ == main_host(),
        noco@ == nocookie_host(),
        emb@ == embed_segment(),
    ensures
        b == fixed_prefix_at(s@, q as int),
{
    if q >= 2 && q <= s.len() {
        if (s[q - 2] == 118 || s[q - 2] == 101) && s[q - 1] == 47 {
            if host_ends_at_x(s, q - 2, main, noco) {
                proof {
                    assert(fixed_path(s@, q - 2, q as int));
                }
                return true;
            }
        }
    }
    if q >= 6 && lit_at(s, q - 6, emb) {
        if host_ends_at_x(s, q - 6, main, noco) {
            proof {
                assert(fixed_path(s@, q - 6, q as int));
            }
            return true;
        }
    }
    proof {
        assert forall|r: int| host_ends_at(s@, r) implies !fixed_path(s@, r, q as int) by {
            if fixed_path(s@, r, q as int) {
                if q == r + 2 {
                    assert(r == q - 2);
                } else {
                    assert(q == r + 6 && bytes_at(s@, r, embed_segment()));
                    assert(r == q - 6);
                }
            }
        }
    }
    false
}

/// Whether a host plus query path ends at `q`.
fn check_query(s: &[u8], q: usize, main: &Vec<u8>, noco: &Vec<u8>) -> (b: bool)
    requires
        main@ == main_host(),
        noco@ == nocookie_host(),
    ensures
        b == query_prefix_at(s@, q as int),
{
    if q < 3 || q > s.len() {
        return false;
    }
    if !((s[q - 3] == 63 || s[q - 3] == 38) && s[q - 2] == 118 && s[q - 1] == 61) {
        return false;
    }
    let mut r: usize = q - 3;
    loop
        invariant
            3 <= q,
            q <= s@.len(),
            r <= q - 3,
            s@[q - 3] == 63 || s@[q - 3] == 38,
            s@[q - 2] == 118,
            s@[q - 1] == 61,
            main@ == main_host(),
            noco@ == nocookie_host(),
            forall|j: int| r <= j < q - 3 ==> !is_space_byte(s@[j]),
            forall|r2: int| r < r2 <= q - 3 ==> !host_ends_at(s@, r2),
        decreases r,
    {
        if host_ends_at_x(s, r, main, noco) {
            proof {
                assert(query_path(s@, r as int, q as int));
            }
            return true;
        }
        if r == 0 {
            proof {
                assert forall|r2: int| host_ends_at(s@, r2) implies !query_path(
                    s@,
                    r2,
                    q as int,
                ) by {
                    if query_path(s@, r2, q as int) {
                        assert(0 <= r2 <= q - 3);
                    }
                }
            }
            return false;
        }
        if is_space_byte_x(s[r - 1]) {
            proof {
                assert forall|r2: int| host_ends_at(s@, r2) implies !query_path(
                    s@,
                    r2,
                    q as int,
                ) by {
                    if query_path(s@, r2, q as int) {
                        if r2 < r {
                            assert(r2 <= r - 1 < q - 3);
                            assert(!is_space_byte(s@[r - 1]));
                        }
                    }
                }
            }
            return false;
        }
        r = r - 1;
    }
}

/// Whether a host plus two-segment path ends at `q`.
fn check_two_segment(s: &[u8], q: usize, main: &Vec<u8>, noco: &Vec<u8>) -> (b: bool)
    requires
        main@ == main_host(),
        noco@ == nocookie_host(),
    ensures
        b == two_segment_prefix_at(s@, q as int),
{
    if q < 4 || q > s.len() {
        return false;
    }
    if s[q - 1] != 47 {
        return false;
    }
    let mut t: usize = q - 1;
    loop
        invariant
            4 <= q,
            q <= s@.len(),
            t <= q - 1,
            s@[q - 1] == 47,
            main@ == main_host(),
            noco@ == nocookie_host(),
            forall|j: int| t <= j < q - 1 ==> !is_space_byte(s@[j]),
            forall|r2: int, f: int|
                #![trigger two_segment_split(s@, r2, f, q as int)]
                t <= f ==> !(host_ends_at(s@, r2) && two_segment_split(s@, r2, f, q as int)),
        decreases t,
    {
        if t == 0 {
            proof {
                assert forall|r2: int, f: int| host_ends_at(s@, r2) implies !two_segment_split(
                    s@,
                    r2,
                    f,
                    q as int,
                ) by {
                    if two_segment_split(s@, r2, f, q as int) {
                        assert(f >= 1);
                    }
                }
            }
            return false;
        }
        let a = s[t - 1];
        if is_space_byte_x(a) {
            proof {
                assert forall|r2: int, f: int| host_ends_at(s@, r2) implies !two_segment_split(
                    s@,
                    r2,
                    f,
                    q as int,
                ) by {
                    if two_segment_split(s@, r2, f, q as int) && f < t {
                        if f == t - 1 {
                            assert(s@[f] == 47);
                        } else {
                            assert(f < t - 1 < q - 1);
                            assert(!is_space_byte(s@[t - 1]));
                        }
                    }
                }
            }
            return false;
        }
        if a == 47 && t < q - 1 {
            // candidate split position f = t - 1; scan left for a host end
            // with a clean first segment between it and f
            let fpos = t - 1;
            let mut rr: usize = fpos;
            loop
                invariant
                    4 <= q,
                    q <= s@.len(),
                    fpos == t - 1,
                    1 <= t < q - 1,
                    rr <= fpos,
                    s@[fpos as int] == 47,
                    s@[q - 1] == 47,
                    main@ == main_host(),
                    noco@ == nocookie_host(),
                    forall|j: int| t <= j < q - 1 ==> !is_space_byte(s@[j]),
                    forall|j: int| rr <= j < fpos ==> s@[j] != 47 && !is_space_byte(s@[j]),
                    forall|r2: int| rr <= r2 < fpos ==> !host_ends_at(s@, r2),
                ensures
                    rr <= fpos,
                    forall|j: int| rr <= j < fpos ==> s@[j] != 47 && !is_space_byte(s@[j]),
                    forall|r2: int| rr <= r2 < fpos ==> !host_ends_at(s@, r2),
                    rr == 0 || s@[rr - 1] == 47 || is_space_byte(s@[rr - 1]),
                decreases rr,
            {
                if rr == 0 {
                    break;
                }
                let c = s[rr - 1];
                if c == 47 || is_space_byte_x(c) {
                    break;
                }
                rr = rr - 1;
                if host_ends_at_x(s, rr, main, noco) {
                    proof {
                        assert(two_segment_split(s@, rr as int, fpos as int, q as int));
                    }
                    return true;
                }
            }
            proof {
                assert forall|r2: int| host_ends_at(s@, r2) implies !two_segment_split(
                    s@,
                    r2,
                    t - 1,
                    q as int,
                ) by {
                    if two_segment_split(s@, r2, t - 1, q as int) {
                        if r2 < rr {
                            assert(r2 <= rr - 1 < fpos);
                            assert(s@[rr - 1] != 47 && !is_space_byte(s@[rr - 1]));
                        }
                    }
                }
            }
        } else {
            proof {
                assert forall|r2: int| host_ends_at(s@, r2) implies !two_segment_split(
                    s@,
                    r2,
                    t - 1,
                    q as int,
                ) by {
                    if two_segment_split(s@, r2, t - 1, q as int) {
                        assert(s@[t - 1] == 47);
                        assert(t - 1 + 1 < q - 1);
                    }
                }
            }
        }
        t = t - 1;
    }
}

/// Whether a recognized link whose identifier starts at `q` occurs in `s`.
fn check_match_at(
    s: &[u8],
    q: usize,
    short: &Vec<u8>,
    main: &Vec<u8>,
    noco: &Vec<u8>,
    emb: &Vec<u8>,
) -> (b: bool)
    requires
        short@ == short_host(),
        main@ == main_host(),
        noco@ == nocookie_host(),
        emb@ == embed_segment(),
    ensures
        b == link_match_at(s@, q as int),
{
    if !check_id_run(s, q) {
        return false;
    }
    if q >= 9 && lit_at(s, q - 9, short) {
        return true;
    }
    if check_fixed(s, q, main, noco, emb) {
        return true;
    }
    if check_query(s, q, main, noco) {
        return true;
    }
    if check_two_segment(s, q, main, noco) {
        return true;
    }
    false
}

/// Scans message text for the first recognized video link and returns its
/// 11-byte identifier; `None` when the text holds no recognized link.
pub fn extract_video_id(text: &[u8]) -> (r: Option<Vec<u8>>)
    ensures
        (r is Some) <==> has_link(text@),
        r matches Some(v) ==> exists|q: int|
            #[trigger] link_match_at(text@, q) && (forall|p: int| 0 <= p < q ==> !link_match_at(
                text@,
                p,
            )) && v@ == text@.subrange(q, q + 11),
{
    let short = short_host_pat();
    let main = main_host_pat();
    let noco = nocookie_host_pat();
    let emb = embed_pat();
    let n = text.len();
    let mut q: usize = 0;
    while q < n
        invariant
            n == text@.len(),
            q <= text@.len(),
            short@ == short_host(),
            main@ == main_host(),
            noco@ == nocookie_host(),
            emb@ == embed_segment(),
            forall|p: int| 0 <= p < q ==> !link_match_at(text@, p),
        decreases text@.len() - q,
    {
        if check_match_at(text, q, &short, &main, &noco, &emb) {
            let mut v: Vec<u8> = Vec::new();
            let mut j: usize = 0;
            while j < 11
                invariant
                    text@.len() <= usize::MAX,
                    q + 11 <= text@.len(),
                    j <= 11,
                    v@ =~= text@.subrange(q as int, q + j),
                    link_match_at(text@, q as int),
                decreases 11 - j,
            {
                v.push(text[q + j]);
                proof {
                    assert(v@ =~= text@.subrange(q as int, q + j + 1));
                }
                j += 1;
            }
            return Some(v);
        }
        q += 1;
    }
    proof {
        assert forall|p: int| !link_match_at(text@, p) by {
            if 0 <= p < text@.len() {
            } else {
                assert(!id_run_at(text@, p));
            }
        }
    }
    None
}

} // verus!
