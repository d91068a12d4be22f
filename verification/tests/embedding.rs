use spotify_gateway::AudioFeatures;
use spotify_gateway::EMBED_SCALE;
use spotify_gateway::default_key;
use spotify_gateway::default_time_signature;

fn mk_features() -> AudioFeatures {
    AudioFeatures {
        id: Some(String::from("t1")),
        acousticness: 500,
        danceability: 250,
        energy: 1000,
        instrumentalness: 0,
        key: 5,
        liveness: 100,
        loudness: -30_000,
        mode: 1,
        speechiness: 50,
        tempo: 125_000,
        time_signature: 5,
        valence: 750,
    }
}

#[test]
fn embedding_has_twelve_components() {
    let e = mk_features().to_embedding();
    assert_eq!(e.len(), 12);
}

#[test]
fn embedding_exact_values_for_typical_record() {
    let e = mk_features().to_embedding();
    assert_eq!(e[0], 750_000); // acousticness 0.5
    assert_eq!(e[1], 375_000); // danceability 0.25
    assert_eq!(e[2], 1_500_000); // energy 1.0
    assert_eq!(e[3], 0); // instrumentalness 0.0
    assert_eq!(e[4], 750_000); // key 5 -> (5+1)/12
    assert_eq!(e[5], 150_000); // liveness 0.1
    assert_eq!(e[6], 750_000); // loudness -30 -> (−30+60)/60
    assert_eq!(e[7], 1_500_000); // mode 1
    assert_eq!(e[8], 75_000); // speechiness 0.05
    assert_eq!(e[9], 750_000); // tempo 125 -> 125/250
    assert_eq!(e[10], 750_000); // time signature 5 -> (5-3)/4
    assert_eq!(e[11], 1_125_000); // valence 0.75
}

#[test]
fn key_at_lower_bound_maps_to_zero() {
    let mut f = mk_features();
    f.key = -1;
    assert_eq!(f.to_embedding()[4], 0);
}

#[test]
fn key_at_upper_bound_maps_to_one() {
    let mut f = mk_features();
    f.key = 11;
    assert_eq!(f.to_embedding()[4], EMBED_SCALE);
}

#[test]
fn tempo_above_range_clamps_to_one() {
    let mut f = mk_features();
    f.tempo = 300_000; // raw 300, above the 250 ceiling
    assert_eq!(f.to_embedding()[9], EMBED_SCALE);
}

#[test]
fn loudness_below_range_clamps_to_zero() {
    let mut f = mk_features();
    f.loudness = -120_000; // raw -120, below the -60 floor
    assert_eq!(f.to_embedding()[6], 0);
}

#[test]
fn fractional_descriptors_clamp_to_unit_range() {
    let mut f = mk_features();
    f.acousticness = -100;
    f.valence = 2_000;
    let e = f.to_embedding();
    assert_eq!(e[0], 0);
    assert_eq!(e[11], EMBED_SCALE);
}

#[test]
fn time_signature_bounds() {
    let mut f = mk_features();
    f.time_signature = 3;
    assert_eq!(f.to_embedding()[10], 0);
    f.time_signature = 7;
    assert_eq!(f.to_embedding()[10], EMBED_SCALE);
}

#[test]
fn mode_zero_passes_through() {
    let mut f = mk_features();
    f.mode = 0;
    assert_eq!(f.to_embedding()[7], 0);
}

#[test]
fn embedding_is_idempotent() {
    let f = mk_features();
    let first = f.to_embedding();
    let second = f.to_embedding();
    assert_eq!(first, second);
}

#[test]
fn default_key_is_no_key_detected() {
    assert_eq!(default_key(), -1);
}

#[test]
fn default_time_signature_is_four() {
    assert_eq!(default_time_signature(), 4);
}
