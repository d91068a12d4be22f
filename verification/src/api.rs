//! Response shaping for the two protocol front-ends. Everything here is
//! pure: the front-ends only serialize what these functions return.

use vstd::prelude::*;
use vstd::string::StringExecFns;

use crate::catalog::Album;
use crate::catalog::Artist;
use crate::catalog::SearchTracksResponse;
use crate::catalog::SearchTracksWithFeaturesResponse;
use crate::catalog::Track;
use crate::catalog::TrackWithFeatures;
use crate::error::AppError;
use crate::text::spec_is_blank;
use crate::text::spec_trim;

verus! {

/// Query parameters of the search endpoint.
#[derive(Debug, Clone)]
pub struct SearchQuery {
    /// Search query (required).
    pub q: String,
    /// Max results (1-50, default 20).
    pub limit: Option<u32>,
    /// Pagination offset (0-1000).
    pub offset: Option<u32>,
    /// Include audio features and embeddings in the response.
    pub include_features: Option<bool>,
}

/// Query parameters of the tracks-with-features endpoint.
#[derive(Debug, Clone)]
pub struct TracksWithFeaturesQuery {
    /// Comma-separated track ids (max 50).
    pub ids: String,
}

/// API response for track search.
#[derive(Debug, Clone)]
pub struct SearchResponse {
    pub tracks: Vec<TrackResponse>,
    pub total: u32,
    pub limit: u32,
    pub offset: u32,
}

/// Single track in an API response.
#[derive(Debug, Clone)]
pub struct TrackResponse {
    pub id: String,
    pub name: String,
    pub uri: String,
    pub duration_ms: u32,
    pub explicit: bool,
    pub artists: Vec<ArtistResponse>,
    pub album: AlbumResponse,
    pub spotify_url: Option<String>,
    /// The 12-dimensional embedding, in embedding units, when features were
    /// requested and present.
    pub embedding: Option<Vec<i64>>,
    /// Import metadata, as ordered key-value pairs.
    pub metadata: Option<Vec<(String, String)>>,
}

#[derive(Debug, Clone)]
pub struct ArtistResponse {
    pub id: Option<String>,
    pub name: String,
}

#[derive(Debug, Clone)]
pub struct AlbumResponse {
    pub id: Option<String>,
    pub name: String,
    pub image_url: Option<String>,
}

/// One entry of the RPC response: a track kept only when it carries an
/// embedding, with its import metadata.
#[derive(Debug, Clone)]
pub struct RpcTrack {
    pub id: String,
    pub embedding: Vec<i64>,
    pub metadata: Vec<(String, String)>,
}

/// The artist names joined with a comma and a space, in order.
pub open spec fn spec_names_joined(artists: Seq<Artist>) -> Seq<char>
    decreases artists.len(),
{
    if artists.len() == 0 {
        Seq::<char>::empty()
    } else if artists.len() == 1 {
        artists[0].name@
    } else {
        spec_names_joined(artists.drop_last()) + ", "@ + artists.last().name@
    }
}

/// Join the artist names for display, in their given order.
pub fn artist_names_joined(artists: &Vec<Artist>) -> (r: String)
    ensures
        r@ == spec_names_joined(artists@),
{
    let mut r = String::new();
    let mut i: usize = 0;
    while i < artists.len()
        invariant
            i <= artists.len(),
            r@ == spec_names_joined(artists@.take(i as int)),
        decreases artists.len() - i,
    {
        if i > 0 {
            r.append(", ");
        }
        r.append(artists[i].name.as_str());
        proof {
            if i == 0 {
                assert(artists@.take(1int) =~= seq![artists@[0]]);
                assert(r@ =~= spec_names_joined(artists@.take(1int)));
            } else {
                assert(artists@.take(i + 1).drop_last() =~= artists@.take(i as int));
                assert(artists@.take(i + 1).last() == artists@[i as int]);
                assert(r@ =~= spec_names_joined(artists@.take(i + 1)));
            }
        }
        i = i + 1;
    }
    proof {
        assert(artists@.take(artists@.len() as int) =~= artists@);
    }
    r
}

/// The import metadata of a track: its id, title, display artist, album
/// name, and its external link when one exists, in that order.
pub open spec fn spec_metadata_pairs(t: Track) -> Seq<(Seq<char>, Seq<char>)> {
    let base = seq![
        ("spotify_id"@, t.id@),
        ("title"@, t.name@),
        ("artist"@, spec_names_joined(t.artists@)),
        ("album"@, t.album.name@),
    ];
    match t.external_urls.spotify {
        Some(u) => base.push(("spotify_url"@, u@)),
        None => base,
    }
}

fn clone_opt_string(o: &Option<String>) -> (r: Option<String>)
    ensures
        r == *o,
{
    match o {
        Some(s) => Some(s.clone()),
        None => None,
    }
}

fn clone_vec_i64(v: &Vec<i64>) -> (r: Vec<i64>)
    ensures
        r@ == v@,
{
    let mut r: Vec<i64> = Vec::new();
    let mut i: usize = 0;
    while i < v.len()
        invariant
            i <= v.len(),
            r@ == v@.take(i as int),
        decreases v.len() - i,
    {
        r.push(v[i]);
        proof {
            assert(r@ =~= v@.take(i + 1));
        }
        i = i + 1;
    }
    proof {
        assert(v@.take(v@.len() as int) =~= v@);
    }
    r
}

/// Build the import metadata pairs of a track.
pub fn metadata_of(t: &Track) -> (r: Vec<(String, String)>)
    ensures
        r@.map_values(|p: (String, String)| (p.0@, p.1@)) == spec_metadata_pairs(*t),
{
    let mut md: Vec<(String, String)> = Vec::new();
    md.push((String::from_str("spotify_id"), t.id.clone()));
    md.push((String::from_str("title"), t.name.clone()));
    md.push((String::from_str("artist"), artist_names_joined(&t.artists)));
    md.push((String::from_str("album"), t.album.name.clone()));
    match &t.external_urls.spotify {
        Some(u) => md.push((String::from_str("spotify_url"), u.clone())),
        None => {},
    }
    proof {
        assert(md@.map_values(|p: (String, String)| (p.0@, p.1@)) =~= spec_metadata_pairs(*t));
    }
    md
}

pub open spec fn spec_artist_response(a: Artist) -> ArtistResponse {
    ArtistResponse { id: a.id, name: a.name }
}

/// The first album image's URL, if the album has any image.
pub open spec fn spec_first_image_url(album: Album) -> Option<String> {
    if album.images.len() > 0 {
        album.images[0].url
    } else {
        None
    }
}

pub open spec fn spec_album_response(album: Album) -> AlbumResponse {
    AlbumResponse { id: album.id, name: album.name, image_url: spec_first_image_url(album) }
}

/// Everything a response row states about its track, independent of the
/// embedding slot.
pub open spec fn spec_track_response_core(t: Track, r: TrackResponse) -> bool {
    &&& r.id == t.id
    &&& r.name == t.name
    &&& r.uri == t.uri
    &&& r.duration_ms == t.duration_ms
    &&& r.explicit == t.explicit
    &&& r.artists@ == t.artists@.map_values(|a: Artist| spec_artist_response(a))
    &&& r.album == spec_album_response(t.album)
    &&& r.spotify_url == t.external_urls.spotify
    &&& r.metadata matches Some(md) && md@.map_values(|p: (String, String)| (p.0@, p.1@))
        == spec_metadata_pairs(t)
}

fn artist_responses_of(artists: &Vec<Artist>) -> (r: Vec<ArtistResponse>)
    ensures
        r@ == artists@.map_values(|a: Artist| spec_artist_response(a)),
{
    let mut r: Vec<ArtistResponse> = Vec::new();
    let mut i: usize = 0;
    while i < artists.len()
        invariant
            i <= artists.len(),
            r@ == artists@.take(i as int).map_values(|a: Artist| spec_artist_response(a)),
        decreases artists.len() - i,
    {
        let a = &artists[i];
        r.push(ArtistResponse { id: clone_opt_string(&a.id), name: a.name.clone() });
        proof {
            assert(artists@.take(i + 1).map_values(|a: Artist| spec_artist_response(a)) =~= artists@.take(
                i as int,
            ).map_values(|a: Artist| spec_artist_response(a)).push(
                spec_artist_response(artists@[i as int]),
            ));
            assert(r@ =~= artists@.take(i + 1).map_values(|a: Artist| spec_artist_response(a)));
        }
        i = i + 1;
    }
    proof {
        assert(artists@.take(artists@.len() as int) =~= artists@);
    }
    r
}

fn album_response_of(album: &Album) -> (r: AlbumResponse)
    ensures
        r == spec_album_response(*album),
{
    let image_url: Option<String> = if album.images.len() > 0 {
        clone_opt_string(&album.images[0].url)
    } else {
        None
    };
    AlbumResponse { id: clone_opt_string(&album.id), name: album.name.clone(), image_url }
}

fn track_response_core(t: &Track, embedding: Option<Vec<i64>>) -> (r: TrackResponse)
    ensures
        spec_track_response_core(*t, r),
        r.embedding == embedding,
{
    TrackResponse {
        id: t.id.clone(),
        name: t.name.clone(),
        uri: t.uri.clone(),
        duration_ms: t.duration_ms,
        explicit: t.explicit,
        artists: artist_responses_of(&t.artists),
        album: album_response_of(&t.album),
        spotify_url: clone_opt_string(&t.external_urls.spotify),
        embedding,
        metadata: Some(metadata_of(t)),
    }
}

/// The response row of a plain track: no features were asked for, so the
/// embedding slot is empty.
pub fn track_to_response(t: &Track) -> (r: TrackResponse)
    ensures
        spec_track_response_core(*t, r),
        r.embedding is None,
{
    track_response_core(t, None)
}

/// The response row of a joined track: the embedding is carried over
/// exactly when the join produced one.
pub fn track_with_features_to_response(t: &TrackWithFeatures) -> (r: TrackResponse)
    ensures
        spec_track_response_core(t.track, r),
        t.embedding matches Some(e) ==> (r.embedding matches Some(e2) && e2@ == e@),
        t.embedding is None ==> r.embedding is None,
{
    let embedding: Option<Vec<i64>> = match &t.embedding {
        Some(e) => Some(clone_vec_i64(e)),
        None => None,
    };
    track_response_core(&t.track, embedding)
}

/// The HTTP response of a search without features: one row per searched
/// track, in order, with the page's totals unchanged and no embeddings.
pub fn search_response_plain(result: &SearchTracksResponse) -> (r: SearchResponse)
    ensures
        r.total == result.total,
        r.limit == result.limit,
        r.offset == result.offset,
        r.tracks@.len() == result.tracks@.len(),
        forall|k: int|
            0 <= k < r.tracks@.len() ==> spec_track_response_core(
                result.tracks@[k],
                #[trigger] r.tracks@[k],
            ) && r.tracks@[k].embedding is None,
{
    let mut rows: Vec<TrackResponse> = Vec::new();
    let mut i: usize = 0;
    while i < result.tracks.len()
        invariant
            i <= result.tracks.len(),
            rows@.len() == i,
            forall|k: int|
                0 <= k < i ==> spec_track_response_core(
                    result.tracks@[k],
                    #[trigger] rows@[k],
                ) && rows@[k].embedding is None,
        decreases result.tracks.len() - i,
    {
        rows.push(track_to_response(&result.tracks[i]));
        i = i + 1;
    }
    SearchResponse { tracks: rows, total: result.total, limit: result.limit, offset: result.offset }
}

/// The HTTP response of a search with features: one row per joined track,
/// in order, each carrying its embedding exactly when the join did.
pub fn search_response_with_features(result: &SearchTracksWithFeaturesResponse) -> (r:
    SearchResponse)
    ensures
        r.total == result.total,
        r.limit == result.limit,
        r.offset == result.offset,
        r.tracks@.len() == result.tracks@.len(),
        forall|k: int|
            0 <= k < r.tracks@.len() ==> spec_track_response_core(
                result.tracks@[k].track,
                #[trigger] r.tracks@[k],
            ) && (result.tracks@[k].embedding is Some <==> r.tracks@[k].embedding is Some),
{
    let mut rows: Vec<TrackResponse> = Vec::new();
    let mut i: usize = 0;
    while i < result.tracks.len()
        invariant
            i <= result.tracks.len(),
            rows@.len() == i,
            forall|k: int|
                0 <= k < i ==> spec_track_response_core(
                    result.tracks@[k].track,
                    #[trigger] rows@[k],
                ) && (result.tracks@[k].embedding is Some <==> rows@[k].embedding is Some),
        decreases result.tracks.len() - i,
    {
        rows.push(track_with_features_to_response(&result.tracks[i]));
        i = i + 1;
    }
    SearchResponse { tracks: rows, total: result.total, limit: result.limit, offset: result.offset }
}

/// The HTTP response of an id-batch request: one row per joined track, with
/// the totals set to the row count and no paging.
pub fn tracks_response_of(tracks: &Vec<TrackWithFeatures>) -> (r: SearchResponse)
    requires
        tracks@.len() <= u32::MAX,
    ensures
        r.total == tracks@.len(),
        r.limit == tracks@.len(),
        r.offset == 0,
        r.tracks@.len() == tracks@.len(),
        forall|k: int|
            0 <= k < r.tracks@.len() ==> spec_track_response_core(
                tracks@[k].track,
                #[trigger] r.tracks@[k],
            ) && (tracks@[k].embedding is Some <==> r.tracks@[k].embedding is Some),
{
    let mut rows: Vec<TrackResponse> = Vec::new();
    let mut i: usize = 0;
    while i < tracks.len()
        invariant
            i <= tracks.len(),
            tracks@.len() <= u32::MAX,
            rows@.len() == i,
            forall|k: int|
                0 <= k < i ==> spec_track_response_core(
                    tracks@[k].track,
                    #[trigger] rows@[k],
                ) && (tracks@[k].embedding is Some <==> rows@[k].embedding is Some),
        decreases tracks.len() - i,
    {
        rows.push(track_with_features_to_response(&tracks[i]));
        i = i + 1;
    }
    let n = tracks.len() as u32;
    SearchResponse { tracks: rows, total: n, limit: n, offset: 0 }
}

/// The joined tracks that the RPC response keeps: exactly those carrying an
/// embedding, in order.
pub open spec fn spec_rpc_kept(ts: Seq<TrackWithFeatures>, n: int) -> Seq<TrackWithFeatures>
    decreases n,
{
    if n <= 0 {
        Seq::<TrackWithFeatures>::empty()
    } else {
        let prefix = spec_rpc_kept(ts, n - 1);
        if ts[n - 1].embedding is Some {
            prefix.push(ts[n - 1])
        } else {
            prefix
        }
    }
}

/// Shape the RPC response rows: a joined track without an embedding is
/// dropped; each kept row carries the track's id, its embedding, and its
/// import metadata.
pub fn rpc_tracks_of(tracks: Vec<TrackWithFeatures>) -> (r: Vec<RpcTrack>)
    ensures
        r@.len() == spec_rpc_kept(tracks@, tracks@.len() as int).len(),
        forall|k: int|
            0 <= k < r@.len() ==> {
                let src = spec_rpc_kept(tracks@, tracks@.len() as int)[k];
                &&& (#[trigger] r@[k]).id == src.track.id
                &&& src.embedding matches Some(e) && r@[k].embedding@ == e@
                &&& r@[k].metadata@.map_values(|p: (String, String)| (p.0@, p.1@))
                    == spec_metadata_pairs(src.track)
            },
{
    let ghost ts0 = tracks@;
    let mut tracks = tracks;
    let n = tracks.len();
    let mut r: Vec<RpcTrack> = Vec::new();
    let mut i: usize = 0;
    while i < n
        invariant
            i <= n,
            n == ts0.len(),
            tracks@ == ts0.skip(i as int),
            r@.len() == spec_rpc_kept(ts0, i as int).len(),
            forall|k: int|
                0 <= k < r@.len() ==> {
                    let src = spec_rpc_kept(ts0, i as int)[k];
                    &&& (#[trigger] r@[k]).id == src.track.id
                    &&& src.embedding matches Some(e) && r@[k].embedding@ == e@
                    &&& r@[k].metadata@.map_values(|p: (String, String)| (p.0@, p.1@))
                        == spec_metadata_pairs(src.track)
                },
        decreases n - i,
    {
        let tw = tracks.remove(0);
        let ghost tw0 = tw;
        proof {
            assert(ts0.skip(i as int)[0] == ts0[i as int]);
            assert(ts0.skip(i as int).remove(0) =~= ts0.skip(i + 1));
            assert(tw0 == ts0[i as int]);
        }
        match tw.embedding {
            Some(e) => {
                let metadata = metadata_of(&tw.track);
                r.push(RpcTrack { id: tw.track.id, embedding: e, metadata });
                proof {
                    assert(spec_rpc_kept(ts0, i + 1) == spec_rpc_kept(ts0, i as int).push(tw0));
                }
            },
            None => {
                proof {
                    assert(spec_rpc_kept(ts0, i + 1) == spec_rpc_kept(ts0, i as int));
                }
            },
        }
        i = i + 1;
    }
    r
}

/// The pieces of `s` split on commas, the current piece accumulating in
/// `cur`: every comma ends a piece, and the tail after the last comma is a
/// piece of its own (so an empty string has one empty piece).
pub open spec fn spec_split_acc(s: Seq<char>, cur: Seq<char>) -> Seq<Seq<char>>
    decreases s.len(),
{
    if s.len() == 0 {
        seq![cur]
    } else if s[0] == ',' {
        seq![cur] + spec_split_acc(s.drop_first(), Seq::<char>::empty())
    } else {
        spec_split_acc(s.drop_first(), cur.push(s[0]))
    }
}

pub open spec fn spec_split_commas(s: Seq<char>) -> Seq<Seq<char>> {
    spec_split_acc(s, Seq::<char>::empty())
}

/// The pieces kept from a split id parameter: each piece trimmed, the blank
/// ones dropped, order preserved.
pub open spec fn spec_kept_ids(pieces: Seq<Seq<char>>) -> Seq<Seq<char>>
    decreases pieces.len(),
{
    if pieces.len() == 0 {
        Seq::<Seq<char>>::empty()
    } else {
        let prefix = spec_kept_ids(pieces.drop_last());
        let t = spec_trim(pieces.last());
        if t.len() != 0 {
            prefix.push(t)
        } else {
            prefix
        }
    }
}

/// The ids named by a comma-separated parameter: split on commas, each
/// piece trimmed, blank pieces dropped, order preserved.
pub open spec fn spec_parse_ids(s: Seq<char>) -> Seq<Seq<char>> {
    spec_kept_ids(spec_split_commas(s))
}

fn push_trimmed(r: &mut Vec<String>, piece: &Vec<char>)
    ensures
        final(r)@.map_values(|t: String| t@) == old(r)@.map_values(|t: String| t@) + (
        if spec_trim(piece@).len() != 0 {
            seq![spec_trim(piece@)]
        } else {
            Seq::<Seq<char>>::empty()
        }),
{
    let ghost before = r@.map_values(|t: String| t@);
    let trimmed = crate::text::trim_chars(piece);
    if trimmed.len() > 0 {
        let s = crate::text::string_of_chars(&trimmed);
        r.push(s);
        proof {
            assert(r@.map_values(|t: String| t@) =~= before + seq![spec_trim(piece@)]);
        }
    } else {
        proof {
            assert(r@.map_values(|t: String| t@) =~= before + Seq::<Seq<char>>::empty());
        }
    }
}

/// Parse the comma-separated id parameter of a batch request: split on
/// commas, trim each piece, and drop the blank ones, keeping their order.
pub fn parse_ids(ids: &str) -> (r: Vec<String>)
    ensures
        r@.map_values(|t: String| t@) == spec_parse_ids(ids@),
{
    let cs = crate::text::chars_of(ids);
    let mut r: Vec<String> = Vec::new();
    let ghost mut emitted: Seq<Seq<char>> = Seq::<Seq<char>>::empty();
    let mut cur: Vec<char> = Vec::new();
    let mut i: usize = 0;
    proof {
        assert(ids@.skip(0int) =~= ids@);
        assert(emitted + spec_split_acc(ids@, Seq::<char>::empty()) =~= spec_split_commas(ids@));
    }
    while i < cs.len()
        invariant
            i <= cs.len(),
            cs@ == ids@,
            spec_split_commas(ids@) == emitted + spec_split_acc(ids@.skip(i as int), cur@),
            r@.map_values(|t: String| t@) == spec_kept_ids(emitted),
        decreases cs.len() - i,
    {
        let c = cs[i];
        let ghost cur0 = cur@;
        let ghost em0 = emitted;
        proof {
            assert(ids@.skip(i as int)[0] == ids@[i as int]);
            assert(ids@.skip(i as int).drop_first() =~= ids@.skip(i + 1));
        }
        if c == ',' {
            push_trimmed(&mut r, &cur);
            cur = Vec::new();
            proof {
                assert(spec_split_acc(ids@.skip(i as int), cur0) == seq![cur0] + spec_split_acc(
                    ids@.skip(i + 1),
                    Seq::<char>::empty(),
                ));
                emitted = em0.push(cur0);
                assert(emitted + spec_split_acc(ids@.skip(i + 1), Seq::<char>::empty()) =~= em0 + (
                seq![cur0] + spec_split_acc(ids@.skip(i + 1), Seq::<char>::empty())));
                assert(emitted.drop_last() =~= em0);
                assert(emitted.last() == cur0);
                assert(spec_kept_ids(emitted) == if spec_trim(cur0).len() != 0 {
                    spec_kept_ids(em0).push(spec_trim(cur0))
                } else {
                    spec_kept_ids(em0)
                });
            }
        } else {
            cur.push(c);
            proof {
                assert(spec_split_acc(ids@.skip(i as int), cur0) == spec_split_acc(
                    ids@.skip(i + 1),
                    cur0.push(ids@[i as int]),
                ));
                assert(cur@ == cur0.push(ids@[i as int]));
            }
        }
        i = i + 1;
    }
    proof {
        assert(ids@.skip(ids@.len() as int) =~= Seq::<char>::empty());
        assert(spec_split_acc(Seq::<char>::empty(), cur@) == seq![cur@]);
    }
    let ghost em0 = emitted;
    push_trimmed(&mut r, &cur);
    proof {
        emitted = em0.push(cur@);
        assert(emitted =~= em0 + seq![cur@]);
        assert(spec_split_commas(ids@) == emitted);
        assert(emitted.drop_last() =~= em0);
        assert(emitted.last() == cur@);
        assert(spec_kept_ids(emitted) == if spec_trim(cur@).len() != 0 {
            spec_kept_ids(em0).push(spec_trim(cur@))
        } else {
            spec_kept_ids(em0)
        });
    }
    r
}

/// Decide the ids parameter of a batch request: a blank parameter is
/// caller-level misuse; otherwise the parameter is split into ids. (A
/// non-blank parameter whose pieces are all blank parses to an empty list,
/// which the request planning then rejects.)
pub fn plan_ids_param(raw: &str) -> (r: Result<Vec<String>, AppError>)
    ensures
        r is Ok <==> !spec_is_blank(raw@),
        r matches Ok(v) ==> v@.map_values(|t: String| t@) == spec_parse_ids(raw@),
        spec_is_blank(raw@) ==> (r matches Err(AppError::BadRequest(m)) && m@
            == "ids is required (comma-separated track IDs)"@),
{
    if crate::text::is_blank_str(raw) {
        Err(AppError::BadRequest(String::from_str("ids is required (comma-separated track IDs)")))
    } else {
        Ok(parse_ids(raw))
    }
}

} // verus!
