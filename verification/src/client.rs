//! Upstream request construction: clamped paging parameters and the full
//! request URLs of the three catalog endpoints. The host sends each URL with
//! the cached bearer token attached; everything about the URL itself is
//! decided and proved here.

use vstd::prelude::*;
use vstd::string::StringExecFns;

use crate::text::push_u32_dec;
use crate::text::spec_u32_dec;

verus! {

/// Most ids one batch-metadata request may carry.
pub const MAX_TRACK_IDS: usize = 50;

/// Most ids one batch-features request may carry.
pub const MAX_FEATURE_IDS: usize = 100;

/// What `urlencoding::encode` returns for a string: its percent-encoding.
pub uninterp spec fn url_encoded_of(s: Seq<char>) -> Seq<char>;

/// Relies on `urlencoding::encode`: percent-encodes every byte of the
/// string's UTF-8 form except alphanumerics and `-`, `_`, `.`, `~` — a
/// function of the input alone, and empty exactly on empty input.
#[verifier::external_body]
fn url_encode(s: &str) -> (r: String)
    ensures
        r@ == url_encoded_of(s@),
        s@.len() == 0 ==> r@.len() == 0,
{
    urlencoding::encode(s).into_owned()
}

/// The page size actually sent upstream: the caller's value clamped into
/// 1..=50, or 20 when the caller gave none.
pub open spec fn spec_clamp_limit(limit: Option<u32>) -> int {
    match limit {
        Option::None => 20,
        Option::Some(v) => if v < 1 {
            1
        } else if v > 50 {
            50
        } else {
            v as int
        },
    }
}

/// The page offset actually sent upstream: the caller's value clamped into
/// 0..=1000, or 0 when the caller gave none.
pub open spec fn spec_clamp_offset(offset: Option<u32>) -> int {
    match offset {
        Option::None => 0,
        Option::Some(v) => if v > 1000 {
            1000
        } else {
            v as int
        },
    }
}

pub fn clamp_limit(limit: Option<u32>) -> (r: u32)
    ensures
        r as int == spec_clamp_limit(limit),
        1 <= r <= 50,
{
    match limit {
        Option::None => 20,
        Option::Some(v) => {
            if v < 1 {
                1
            } else if v > 50 {
                50
            } else {
                v
            }
        },
    }
}

pub fn clamp_offset(offset: Option<u32>) -> (r: u32)
    ensures
        r as int == spec_clamp_offset(offset),
        r <= 1000,
{
    match offset {
        Option::None => 0,
        Option::Some(v) => {
            if v > 1000 {
                1000
            } else {
                v
            }
        },
    }
}

/// The ids of a batch request, joined with commas, in order.
pub open spec fn spec_comma_join(ss: Seq<Seq<char>>) -> Seq<char>
    decreases ss.len(),
{
    if ss.len() == 0 {
        Seq::<char>::empty()
    } else if ss.len() == 1 {
        ss[0]
    } else {
        spec_comma_join(ss.drop_last()) + seq![','] + ss.last()
    }
}

/// Join the ids with commas, in their given order.
pub fn join_ids(ids: &Vec<String>) -> (r: String)
    ensures
        r@ == spec_comma_join(ids@.map_values(|s: String| s@)),
{
    let ghost m = ids@.map_values(|s: String| s@);
    let mut r = String::new();
    let mut i: usize = 0;
    while i < ids.len()
        invariant
            i <= ids.len(),
            m == ids@.map_values(|s: String| s@),
            r@ == spec_comma_join(m.take(i as int)),
        decreases ids.len() - i,
    {
        if i > 0 {
            r.append(",");
            proof {
                reveal_strlit(",");
            }
        }
        r.append(ids[i].as_str());
        proof {
            if i == 0 {
                assert(m.take(1int) =~= seq![m[0]]);
                assert(r@ =~= spec_comma_join(m.take(1int)));
            } else {
                assert(m.take(i + 1).drop_last() =~= m.take(i as int));
                assert(m.take(i + 1).last() == m[i as int]);
                assert(r@ =~= spec_comma_join(m.take(i + 1)));
            }
        }
        i = i + 1;
    }
    proof {
        assert(m.take(ids@.len() as int) =~= m);
    }
    r
}

/// The search endpoint URL for a query, with the paging values clamped
/// before they are sent: the raw caller-supplied values never appear.
pub open spec fn spec_search_url(q: Seq<char>, limit: Option<u32>, offset: Option<u32>) -> Seq<
    char,
> {
    "https://api.spotify.com/v1/search?q="@ + url_encoded_of(q) + "&type=track&limit="@
        + spec_u32_dec(spec_clamp_limit(limit)) + "&offset="@ + spec_u32_dec(
        spec_clamp_offset(offset),
    )
}

pub fn search_url(q: &str, limit: Option<u32>, offset: Option<u32>) -> (r: String)
    ensures
        r@ == spec_search_url(q@, limit, offset),
{
    let mut r = String::from_str("https://api.spotify.com/v1/search?q=");
    let enc = url_encode(q);
    r.append(enc.as_str());
    r.append("&type=track&limit=");
    push_u32_dec(&mut r, clamp_limit(limit));
    r.append("&offset=");
    push_u32_dec(&mut r, clamp_offset(offset));
    proof {
        assert(r@ =~= spec_search_url(q@, limit, offset));
    }
    r
}

/// The batch-metadata endpoint URL for an id list (comma-joined, encoded).
pub open spec fn spec_tracks_url(ids: Seq<Seq<char>>) -> Seq<char> {
    "https://api.spotify.com/v1/tracks?ids="@ + url_encoded_of(spec_comma_join(ids))
}

pub fn tracks_url(ids: &Vec<String>) -> (r: String)
    ensures
        r@ == spec_tracks_url(ids@.map_values(|s: String| s@)),
{
    let joined = join_ids(ids);
    let mut r = String::from_str("https://api.spotify.com/v1/tracks?ids=");
    let enc = url_encode(joined.as_str());
    r.append(enc.as_str());
    r
}

/// The batch-features endpoint URL for an id list (comma-joined, encoded).
pub open spec fn spec_audio_features_url(ids: Seq<Seq<char>>) -> Seq<char> {
    "https://api.spotify.com/v1/audio-features?ids="@ + url_encoded_of(spec_comma_join(ids))
}

pub fn audio_features_url(ids: &Vec<String>) -> (r: String)
    ensures
        r@ == spec_audio_features_url(ids@.map_values(|s: String| s@)),
{
    let joined = join_ids(ids);
    let mut r = String::from_str("https://api.spotify.com/v1/audio-features?ids=");
    let enc = url_encode(joined.as_str());
    r.append(enc.as_str());
    r
}

/// The token-exchange endpoint URL.
pub fn token_url() -> (r: String)
    ensures
        r@ == "https://accounts.spotify.com/api/token"@,
{
    String::from_str("https://accounts.spotify.com/api/token")
}

/// The form body of a token exchange.
pub fn token_request_form() -> (r: String)
    ensures
        r@ == "grant_type=client_credentials"@,
{
    String::from_str("grant_type=client_credentials")
}

/// Whether an HTTP status counts as success, as the upstream contract has
/// it: the 2xx range.
pub fn is_success_status(status: u16) -> (r: bool)
    ensures
        r == (200 <= status && status < 300),
{
    200 <= status && status < 300
}

} // verus!
