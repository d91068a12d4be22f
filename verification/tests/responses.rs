use spotify_gateway::Album;
use spotify_gateway::AppError;
use spotify_gateway::Artist;
use spotify_gateway::ExternalUrls;
use spotify_gateway::Image;
use spotify_gateway::SearchTracksResponse;
use spotify_gateway::Track;
use spotify_gateway::TrackWithFeatures;
use spotify_gateway::artist_names_joined;
use spotify_gateway::metadata_of;
use spotify_gateway::rpc_tracks_of;
use spotify_gateway::search_response_plain;
use spotify_gateway::track_to_response;
use spotify_gateway::track_with_features_to_response;
use spotify_gateway::tracks_response_of;

fn mk_artist(name: &str) -> Artist {
    Artist { id: None, name: String::from(name), external_urls: ExternalUrls { spotify: None } }
}

fn mk_full_track() -> Track {
    Track {
        id: String::from("tr1"),
        name: String::from("Song"),
        uri: String::from("spotify:track:tr1"),
        duration_ms: 180_000,
        explicit: true,
        artists: vec![mk_artist("Ann"), mk_artist("Bo")],
        album: Album {
            id: Some(String::from("al1")),
            name: String::from("The Album"),
            images: vec![Image {
                url: Some(String::from("http://img/1")),
                width: Some(64),
                height: Some(64),
            }],
            external_urls: ExternalUrls { spotify: None },
        },
        external_urls: ExternalUrls { spotify: Some(String::from("http://open/tr1")) },
    }
}

#[test]
fn artist_names_join_with_comma_space() {
    assert_eq!(artist_names_joined(&vec![mk_artist("Ann"), mk_artist("Bo")]), "Ann, Bo");
    assert_eq!(artist_names_joined(&vec![mk_artist("Solo")]), "Solo");
    assert_eq!(artist_names_joined(&vec![]), "");
}

#[test]
fn metadata_pairs_in_order() {
    let md = metadata_of(&mk_full_track());
    let pairs: Vec<(&str, &str)> = md.iter().map(|p| (p.0.as_str(), p.1.as_str())).collect();
    assert_eq!(
        pairs,
        vec![
            ("spotify_id", "tr1"),
            ("title", "Song"),
            ("artist", "Ann, Bo"),
            ("album", "The Album"),
            ("spotify_url", "http://open/tr1"),
        ]
    );
}

#[test]
fn metadata_omits_missing_external_url() {
    let mut t = mk_full_track();
    t.external_urls.spotify = None;
    let md = metadata_of(&t);
    assert_eq!(md.len(), 4);
    assert!(md.iter().all(|p| p.0 != "spotify_url"));
}

#[test]
fn plain_track_response_carries_fields_and_no_embedding() {
    let t = mk_full_track();
    let r = track_to_response(&t);
    assert_eq!(r.id, "tr1");
    assert_eq!(r.name, "Song");
    assert_eq!(r.uri, "spotify:track:tr1");
    assert_eq!(r.duration_ms, 180_000);
    assert!(r.explicit);
    assert_eq!(r.artists.len(), 2);
    assert_eq!(r.artists[0].name, "Ann");
    assert_eq!(r.album.id.as_deref(), Some("al1"));
    assert_eq!(r.album.image_url.as_deref(), Some("http://img/1"));
    assert_eq!(r.spotify_url.as_deref(), Some("http://open/tr1"));
    assert!(r.embedding.is_none());
    assert!(r.metadata.is_some());
}

#[test]
fn joined_track_response_carries_embedding() {
    let tw = TrackWithFeatures {
        track: mk_full_track(),
        audio_features: None,
        embedding: Some(vec![1, 2, 3]),
    };
    let r = track_with_features_to_response(&tw);
    assert_eq!(r.embedding.unwrap(), vec![1, 2, 3]);
}

#[test]
fn search_response_keeps_page_totals() {
    let result = SearchTracksResponse {
        tracks: vec![mk_full_track()],
        total: 42,
        limit: 20,
        offset: 10,
    };
    let r = search_response_plain(&result);
    assert_eq!(r.total, 42);
    assert_eq!(r.limit, 20);
    assert_eq!(r.offset, 10);
    assert_eq!(r.tracks.len(), 1);
}

#[test]
fn tracks_response_totals_are_the_row_count() {
    let rows = vec![
        TrackWithFeatures { track: mk_full_track(), audio_features: None, embedding: None },
        TrackWithFeatures { track: mk_full_track(), audio_features: None, embedding: None },
    ];
    let r = tracks_response_of(&rows);
    assert_eq!(r.total, 2);
    assert_eq!(r.limit, 2);
    assert_eq!(r.offset, 0);
}

#[test]
fn rpc_rows_keep_only_embedded_tracks() {
    let with = TrackWithFeatures {
        track: mk_full_track(),
        audio_features: None,
        embedding: Some(vec![9; 12]),
    };
    let mut other_track = mk_full_track();
    other_track.id = String::from("tr2");
    let without = TrackWithFeatures { track: other_track, audio_features: None, embedding: None };
    let rows = rpc_tracks_of(vec![without, with]);
    assert_eq!(rows.len(), 1);
    assert_eq!(rows[0].id, "tr1");
    assert_eq!(rows[0].embedding, vec![9; 12]);
    assert_eq!(rows[0].metadata.len(), 5);
}

#[test]
fn error_status_codes_match_their_kind() {
    assert_eq!(AppError::Spotify(String::from("x")).status_code(), 502);
    assert_eq!(AppError::BadRequest(String::from("x")).status_code(), 400);
    assert_eq!(AppError::Internal(String::from("x")).status_code(), 500);
    assert_eq!(AppError::BadRequest(String::from("why")).message(), "why");
}
