//! The aggregation engine: input validation, request planning, and the
//! positional join of metadata and feature results.
//!
//! The two upstream fetches of one aggregated request run concurrently under
//! the host; once both have completed, the host hands their results to the
//! merge functions here, which propagate the first failure or join the
//! payloads positionally over the requested id list.

use vstd::prelude::*;
use vstd::string::StringExecFns;

use crate::catalog::SearchTracksResponse;
use crate::catalog::SearchTracksWithFeaturesResponse;
use crate::catalog::Track;
use crate::catalog::TrackWithFeatures;
use crate::client::spec_audio_features_url;
use crate::client::spec_search_url;
use crate::client::spec_tracks_url;
use crate::client::audio_features_url;
use crate::client::search_url;
use crate::client::tracks_url;
use crate::client::MAX_FEATURE_IDS;
use crate::client::MAX_TRACK_IDS;
use crate::error::AppError;
use crate::features::spec_embedding;
use crate::features::AudioFeatures;
use crate::text::is_blank_str;
use crate::text::spec_is_blank;

verus! {

/// The entry of a positional result at `i`, with an out-of-range position
/// read as absence: upstream payloads may be shorter than the request.
pub open spec fn spec_opt_at<T>(s: Seq<Option<T>>, i: int) -> Option<T> {
    if 0 <= i < s.len() {
        s[i]
    } else {
        None
    }
}

/// The positional join of the first `n` positions: a position with catalog
/// metadata contributes one pair (its feature slot may be absent); a
/// position without metadata is dropped entirely. Relative order is kept.
pub open spec fn spec_join_pairs(
    ts: Seq<Option<Track>>,
    fs: Seq<Option<AudioFeatures>>,
    n: int,
) -> Seq<(Track, Option<AudioFeatures>)>
    decreases n,
{
    if n <= 0 {
        Seq::<(Track, Option<AudioFeatures>)>::empty()
    } else {
        let prefix = spec_join_pairs(ts, fs, n - 1);
        match spec_opt_at(ts, n - 1) {
            Some(t) => prefix.push((t, spec_opt_at(fs, n - 1))),
            None => prefix,
        }
    }
}

/// A joined entry's embedding slot holds exactly the derivation of its
/// feature record — present if and only if the features are.
pub open spec fn spec_embedding_consistent(tw: TrackWithFeatures) -> bool {
    match tw.audio_features {
        Some(af) => tw.embedding matches Some(e) && e@.len() == 12 && (forall|i: int|
            0 <= i < 12 ==> #[trigger] e@[i] as int == spec_embedding(af)[i]),
        None => tw.embedding is None,
    }
}

/// `v` is the positional join of `ts` and `fs` over the first `n` positions.
pub open spec fn spec_is_join(
    v: Seq<TrackWithFeatures>,
    ts: Seq<Option<Track>>,
    fs: Seq<Option<AudioFeatures>>,
    n: int,
) -> bool {
    &&& v.len() == spec_join_pairs(ts, fs, n).len()
    &&& forall|k: int|
        0 <= k < v.len() ==> {
            &&& (#[trigger] v[k]).track == spec_join_pairs(ts, fs, n)[k].0
            &&& v[k].audio_features == spec_join_pairs(ts, fs, n)[k].1
            &&& spec_embedding_consistent(v[k])
        }
}

/// Join the two positional payloads over the first `n` positions, deriving
/// an embedding wherever a feature record is present.
pub fn join_tracks_features(
    n: usize,
    tracks: Vec<Option<Track>>,
    features: Vec<Option<AudioFeatures>>,
) -> (r: Vec<TrackWithFeatures>)
    ensures
        spec_is_join(r@, tracks@, features@, n as int),
{
    let ghost ts0 = tracks@;
    let ghost fs0 = features@;
    let mut tracks = tracks;
    let mut features = features;
    let mut r: Vec<TrackWithFeatures> = Vec::new();
    let mut i: usize = 0;
    while i < n
        invariant
            i <= n,
            i as int <= ts0.len() ==> tracks@ == ts0.skip(i as int),
            i as int > ts0.len() ==> tracks@.len() == 0,
            i as int <= fs0.len() ==> features@ == fs0.skip(i as int),
            i as int > fs0.len() ==> features@.len() == 0,
            spec_is_join(r@, ts0, fs0, i as int),
        decreases n - i,
    {
        let t_opt: Option<Track> = if tracks.len() > 0 {
            tracks.remove(0)
        } else {
            None
        };
        let f_opt: Option<AudioFeatures> = if features.len() > 0 {
            features.remove(0)
        } else {
            None
        };
        proof {
            if (i as int) < ts0.len() {
                assert(ts0.skip(i as int)[0] == ts0[i as int]);
                assert(ts0.skip(i as int).remove(0) =~= ts0.skip(i + 1));
            }
            if (i as int) < fs0.len() {
                assert(fs0.skip(i as int)[0] == fs0[i as int]);
                assert(fs0.skip(i as int).remove(0) =~= fs0.skip(i + 1));
            }
            assert(t_opt == spec_opt_at(ts0, i as int));
            assert(f_opt == spec_opt_at(fs0, i as int));
        }
        match t_opt {
            Some(t) => {
                let embedding: Option<Vec<i64>> = match &f_opt {
                    Some(af) => Some(af.to_embedding()),
                    None => None,
                };
                r.push(TrackWithFeatures { track: t, audio_features: f_opt, embedding });
            },
            None => {},
        }
        i = i + 1;
    }
    r
}

/// Merge the two completed fetches of one id-batch request: both must have
/// succeeded before anything is joined, and the metadata failure wins when
/// both failed.
pub fn merge_tracks_and_features(
    n: usize,
    tracks_result: Result<Vec<Option<Track>>, AppError>,
    features_result: Result<Vec<Option<AudioFeatures>>, AppError>,
) -> (r: Result<Vec<TrackWithFeatures>, AppError>)
    ensures
        r is Ok <==> (tracks_result is Ok && features_result is Ok),
        tracks_result matches Err(e) ==> r matches Err(e2) && e2 == e,
        tracks_result is Ok ==> (features_result matches Err(e) ==> (r matches Err(e2) && e2
            == e)),
        tracks_result matches Ok(ts) ==> (features_result matches Ok(fs) ==> (r matches Ok(v)
            && spec_is_join(v@, ts@, fs@, n as int))),
{
    match tracks_result {
        Err(e) => Err(e),
        Ok(ts) => match features_result {
            Err(e) => Err(e),
            Ok(fs) => Ok(join_tracks_features(n, ts, fs)),
        },
    }
}

/// `out` is the search-path join of `tracks` and `fs`: nothing is ever
/// dropped (the tracks came from search itself), only the feature and
/// embedding slots may be absent.
pub open spec fn spec_is_search_join(
    out: Seq<TrackWithFeatures>,
    tracks: Seq<Track>,
    fs: Seq<Option<AudioFeatures>>,
) -> bool {
    &&& out.len() == tracks.len()
    &&& forall|k: int|
        0 <= k < out.len() ==> {
            &&& (#[trigger] out[k]).track == tracks[k]
            &&& out[k].audio_features == spec_opt_at(fs, k)
            &&& spec_embedding_consistent(out[k])
        }
}

/// The ids of the searched tracks, in search order: exactly the id list the
/// feature fetch of the search path is issued over.
pub fn track_ids_of(tracks: &Vec<Track>) -> (r: Vec<String>)
    ensures
        r@.map_values(|s: String| s@) == tracks@.map_values(|t: Track| t.id@),
        r@.len() == tracks@.len(),
{
    let mut r: Vec<String> = Vec::new();
    let mut i: usize = 0;
    while i < tracks.len()
        invariant
            i <= tracks.len(),
            r@.len() == i,
            forall|k: int| 0 <= k < i ==> #[trigger] r@[k]@ == tracks@[k].id@,
        decreases tracks.len() - i,
    {
        r.push(tracks[i].id.clone());
        i = i + 1;
    }
    proof {
        assert(r@.map_values(|s: String| s@) =~= tracks@.map_values(|t: Track| t.id@));
    }
    r
}

/// Attach the feature payload to the searched tracks positionally, keeping
/// every track and the page's totals unchanged.
pub fn attach_search_features(
    result: SearchTracksResponse,
    features: Vec<Option<AudioFeatures>>,
) -> (r: SearchTracksWithFeaturesResponse)
    ensures
        r.total == result.total,
        r.limit == result.limit,
        r.offset == result.offset,
        spec_is_search_join(r.tracks@, result.tracks@, features@),
{
    let ghost ts0 = result.tracks@;
    let ghost fs0 = features@;
    let n = result.tracks.len();
    let mut tracks = result.tracks;
    let mut features = features;
    let mut out: Vec<TrackWithFeatures> = Vec::new();
    let mut i: usize = 0;
    while i < n
        invariant
            i <= n,
            n == ts0.len(),
            tracks@ == ts0.skip(i as int),
            i as int <= fs0.len() ==> features@ == fs0.skip(i as int),
            i as int > fs0.len() ==> features@.len() == 0,
            out@.len() == i,
            forall|k: int|
                0 <= k < i ==> {
                    &&& (#[trigger] out@[k]).track == ts0[k]
                    &&& out@[k].audio_features == spec_opt_at(fs0, k)
                    &&& spec_embedding_consistent(out@[k])
                },
        decreases n - i,
    {
        let t = tracks.remove(0);
        let f_opt: Option<AudioFeatures> = if features.len() > 0 {
            features.remove(0)
        } else {
            None
        };
        proof {
            assert(ts0.skip(i as int)[0] == ts0[i as int]);
            assert(ts0.skip(i as int).remove(0) =~= ts0.skip(i + 1));
            if (i as int) < fs0.len() {
                assert(fs0.skip(i as int)[0] == fs0[i as int]);
                assert(fs0.skip(i as int).remove(0) =~= fs0.skip(i + 1));
            }
            assert(f_opt == spec_opt_at(fs0, i as int));
        }
        let embedding: Option<Vec<i64>> = match &f_opt {
            Some(af) => Some(af.to_embedding()),
            None => None,
        };
        out.push(TrackWithFeatures { track: t, audio_features: f_opt, embedding });
        i = i + 1;
    }
    SearchTracksWithFeaturesResponse {
        tracks: out,
        total: result.total,
        limit: result.limit,
        offset: result.offset,
    }
}

/// Merge the search result with the completed feature fetch of the search
/// path: a feature failure propagates unchanged, a success is attached
/// positionally.
pub fn merge_search_and_features(
    result: SearchTracksResponse,
    features_result: Result<Vec<Option<AudioFeatures>>, AppError>,
) -> (r: Result<SearchTracksWithFeaturesResponse, AppError>)
    ensures
        r is Ok <==> features_result is Ok,
        features_result matches Err(e) ==> r matches Err(e2) && e2 == e,
        features_result matches Ok(fs) ==> r matches Ok(resp) && resp.total == result.total
            && resp.limit == result.limit && resp.offset == result.offset
            && spec_is_search_join(resp.tracks@, result.tracks@, fs@),
{
    match features_result {
        Err(e) => Err(e),
        Ok(fs) => Ok(attach_search_features(result, fs)),
    }
}

/// A planned batch fetch: either nothing to send (an empty id list
/// short-circuits to an empty result with zero upstream calls), or the one
/// URL to send.
pub enum BatchPlan {
    Empty,
    Fetch(String),
}

/// Plan the batch-metadata fetch of an id list: an empty list needs no
/// request; a list over the endpoint's cap is caller-level misuse.
pub fn plan_tracks_request(ids: &Vec<String>) -> (r: Result<BatchPlan, AppError>)
    ensures
        r is Ok <==> ids@.len() <= MAX_TRACK_IDS,
        ids@.len() == 0 ==> r matches Ok(BatchPlan::Empty),
        1 <= ids@.len() <= MAX_TRACK_IDS ==> (r matches Ok(BatchPlan::Fetch(url)) && url@
            == spec_tracks_url(ids@.map_values(|s: String| s@))),
        ids@.len() > MAX_TRACK_IDS ==> (r matches Err(AppError::BadRequest(m)) && m@
            == "too many track ids"@),
{
    if ids.len() == 0 {
        Ok(BatchPlan::Empty)
    } else if ids.len() > MAX_TRACK_IDS {
        Err(AppError::BadRequest(String::from_str("too many track ids")))
    } else {
        Ok(BatchPlan::Fetch(tracks_url(ids)))
    }
}

/// Plan the batch-features fetch of an id list, as
/// [`plan_tracks_request`] does for metadata, against the features cap.
pub fn plan_features_request(ids: &Vec<String>) -> (r: Result<BatchPlan, AppError>)
    ensures
        r is Ok <==> ids@.len() <= MAX_FEATURE_IDS,
        ids@.len() == 0 ==> r matches Ok(BatchPlan::Empty),
        1 <= ids@.len() <= MAX_FEATURE_IDS ==> (r matches Ok(BatchPlan::Fetch(url)) && url@
            == spec_audio_features_url(ids@.map_values(|s: String| s@))),
        ids@.len() > MAX_FEATURE_IDS ==> (r matches Err(AppError::BadRequest(m)) && m@
            == "too many track ids"@),
{
    if ids.len() == 0 {
        Ok(BatchPlan::Empty)
    } else if ids.len() > MAX_FEATURE_IDS {
        Err(AppError::BadRequest(String::from_str("too many track ids")))
    } else {
        Ok(BatchPlan::Fetch(audio_features_url(ids)))
    }
}

/// Admit an id list into the aggregation engine: an empty list, or one over
/// the metadata cap, is caller-level misuse and must be rejected before any
/// upstream call is launched.
pub fn validate_aggregation_ids(ids: &Vec<String>) -> (r: Result<(), AppError>)
    ensures
        r is Ok <==> 1 <= ids@.len() <= MAX_TRACK_IDS,
        ids@.len() == 0 ==> (r matches Err(AppError::BadRequest(m)) && m@
            == "at least one track id required"@),
        ids@.len() > MAX_TRACK_IDS ==> (r matches Err(AppError::BadRequest(m)) && m@
            == "too many track ids"@),
{
    if ids.len() == 0 {
        Err(AppError::BadRequest(String::from_str("at least one track id required")))
    } else if ids.len() > MAX_TRACK_IDS {
        Err(AppError::BadRequest(String::from_str("too many track ids")))
    } else {
        Ok(())
    }
}

/// Plan the search request of a query: the URL to send — with the paging
/// values clamped — or the caller-level error when the query is blank, in
/// which case no request exists to send.
pub fn plan_search_request(q: &str, limit: Option<u32>, offset: Option<u32>) -> (r: Result<
    String,
    AppError,
>)
    ensures
        r is Ok <==> !spec_is_blank(q@),
        r matches Ok(url) ==> url@ == spec_search_url(q@, limit, offset),
        spec_is_blank(q@) ==> (r matches Err(AppError::BadRequest(m)) && m@
            == "query 'q' is required and cannot be empty"@),
{
    if is_blank_str(q) {
        Err(AppError::BadRequest(String::from_str("query 'q' is required and cannot be empty")))
    } else {
        Ok(search_url(q, limit, offset))
    }
}

} // verus!
