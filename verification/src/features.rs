//! Audio feature records and the embedding derivation.
//!
//! A feature record carries twelve named scalar descriptors. The fractional
//! descriptors (acousticness, danceability, energy, instrumentalness,
//! liveness, loudness, speechiness, tempo, valence) are held in thousandths
//! of their raw unit, so every normalization formula below is exact integer
//! arithmetic. The derived embedding is held in units of 1/1_500_000: that
//! scale is divisible by each formula's denominator (12, 60_000, 250_000,
//! 4 and 1_000), so no division ever truncates and the derivation is
//! bit-for-bit reproducible.

use vstd::prelude::*;

verus! {

/// One embedding unit: the value standing for 1.0 in a derived embedding.
pub const EMBED_SCALE: i64 = 1_500_000;

/// One feature unit: the value standing for 1.0 in a raw descriptor field.
pub const FEATURE_SCALE: i64 = 1_000;

/// Audio descriptors of one catalog track.
///
/// Fractional fields are in thousandths (a raw 0.5 is stored as 500;
/// a raw loudness of -60.0 is stored as -60_000). `key`, `mode` and
/// `time_signature` are the raw integers of the upstream payload.
#[derive(Debug, Clone)]
pub struct AudioFeatures {
    pub id: Option<String>,
    pub acousticness: i64,
    pub danceability: i64,
    pub energy: i64,
    pub instrumentalness: i64,
    pub key: i32,
    pub liveness: i64,
    pub loudness: i64,
    pub mode: i32,
    pub speechiness: i64,
    pub tempo: i64,
    pub time_signature: i32,
    pub valence: i64,
}

/// Default pitch class when the upstream payload omits `key`: -1, "no key
/// detected".
pub fn default_key() -> (r: i32)
    ensures
        r == -1,
{
    -1
}

/// Default beats per bar when the upstream payload omits `time_signature`.
pub fn default_time_signature() -> (r: i32)
    ensures
        r == 4,
{
    4
}

pub open spec fn spec_clamp(v: int, lo: int, hi: int) -> int {
    if v < lo {
        lo
    } else if v > hi {
        hi
    } else {
        v
    }
}

/// A fractional descriptor in thousandths, clamped to [0, 1] and rescaled
/// to embedding units.
pub open spec fn spec_unit_norm(v: int) -> int {
    spec_clamp(v, 0, 1_000) * 1_500
}

/// `key_norm = (key + 1) / 12` over the raw pitch-class domain -1..11.
pub open spec fn spec_key_norm(key: int) -> int {
    (key + 1) * 125_000
}

/// `loudness_norm = clamp((loudness + 60) / 60, 0, 1)` over thousandths.
pub open spec fn spec_loudness_norm(l: int) -> int {
    (spec_clamp(l, -60_000, 0) + 60_000) * 25
}

/// `mode_norm = mode`, passed through unclamped.
pub open spec fn spec_mode_norm(mode: int) -> int {
    mode * 1_500_000
}

/// `tempo_norm = clamp(tempo / 250, 0, 1)` over thousandths.
pub open spec fn spec_tempo_norm(t: int) -> int {
    spec_clamp(t, 0, 250_000) * 6
}

/// `time_signature_norm = (time_signature - 3) / 4` over the raw domain 3..7.
pub open spec fn spec_time_signature_norm(ts: int) -> int {
    (ts - 3) * 375_000
}

/// The embedding of a feature record, in embedding units. The component
/// order is a wire contract consumed by a downstream similarity-search
/// caller and must not change.
pub open spec fn spec_embedding(f: AudioFeatures) -> Seq<int> {
    seq![
        spec_unit_norm(f.acousticness as int),
        spec_unit_norm(f.danceability as int),
        spec_unit_norm(f.energy as int),
        spec_unit_norm(f.instrumentalness as int),
        spec_key_norm(f.key as int),
        spec_unit_norm(f.liveness as int),
        spec_loudness_norm(f.loudness as int),
        spec_mode_norm(f.mode as int),
        spec_unit_norm(f.speechiness as int),
        spec_tempo_norm(f.tempo as int),
        spec_time_signature_norm(f.time_signature as int),
        spec_unit_norm(f.valence as int),
    ]
}

fn clamp_i64(v: i64, lo: i64, hi: i64) -> (r: i64)
    requires
        lo <= hi,
    ensures
        r == spec_clamp(v as int, lo as int, hi as int),
{
    if v < lo {
        lo
    } else if v > hi {
        hi
    } else {
        v
    }
}

impl AudioFeatures {
    /// Derive the 12-dimensional embedding of this record, in embedding
    /// units. The result is a pure function of the record alone: calling
    /// this twice on equal records yields identical vectors.
    pub fn to_embedding(&self) -> (r: Vec<i64>)
        ensures
            r@.len() == 12,
            forall|i: int| 0 <= i < 12 ==> #[trigger] r@[i] as int == spec_embedding(*self)[i],
    {
        let key_norm: i64 = ((self.key as i64) + 1) * 125_000;
        let loudness_norm: i64 = (clamp_i64(self.loudness, -60_000, 0) + 60_000) * 25;
        let mode_norm: i64 = (self.mode as i64) * 1_500_000;
        let tempo_norm: i64 = clamp_i64(self.tempo, 0, 250_000) * 6;
        let time_sig_norm: i64 = ((self.time_signature as i64) - 3) * 375_000;

        let mut r: Vec<i64> = Vec::new();
        r.push(clamp_i64(self.acousticness, 0, 1_000) * 1_500);
        r.push(clamp_i64(self.danceability, 0, 1_000) * 1_500);
        r.push(clamp_i64(self.energy, 0, 1_000) * 1_500);
        r.push(clamp_i64(self.instrumentalness, 0, 1_000) * 1_500);
        r.push(key_norm);
        r.push(clamp_i64(self.liveness, 0, 1_000) * 1_500);
        r.push(loudness_norm);
        r.push(mode_norm);
        r.push(clamp_i64(self.speechiness, 0, 1_000) * 1_500);
        r.push(tempo_norm);
        r.push(time_sig_norm);
        r.push(clamp_i64(self.valence, 0, 1_000) * 1_500);
        r
    }
}

/// Law: the embedding derivation is deterministic — equal records give
/// equal embeddings, so deriving twice from one record changes nothing.
pub proof fn lemma_embedding_deterministic(a: AudioFeatures, b: AudioFeatures)
    requires
        a == b,
    ensures
        spec_embedding(a) == spec_embedding(b),
{
}

/// Law: when the integer descriptors sit in their raw domains, every
/// embedding component lies in [0, 1] in embedding units, except the mode
/// indicator, which is exactly 0 or 1 whenever the raw mode is 0 or 1.
pub proof fn lemma_embedding_within_unit_range(f: AudioFeatures)
    requires
        -1 <= f.key <= 11,
        3 <= f.time_signature <= 7,
    ensures
        forall|i: int|
            0 <= i < 12 && i != 7 ==> 0 <= #[trigger] spec_embedding(f)[i] <= EMBED_SCALE as int,
        f.mode == 0 || f.mode == 1 ==> spec_embedding(f)[7] == 0 || spec_embedding(f)[7]
            == EMBED_SCALE as int,
{
    assert forall|i: int| 0 <= i < 12 && i != 7 implies 0 <= #[trigger] spec_embedding(f)[i]
        <= EMBED_SCALE as int by {
        assert(0 <= spec_clamp(f.acousticness as int, 0, 1_000) <= 1_000);
        assert(0 <= spec_clamp(f.danceability as int, 0, 1_000) <= 1_000);
        assert(0 <= spec_clamp(f.energy as int, 0, 1_000) <= 1_000);
        assert(0 <= spec_clamp(f.instrumentalness as int, 0, 1_000) <= 1_000);
        assert(0 <= spec_clamp(f.liveness as int, 0, 1_000) <= 1_000);
        assert(0 <= spec_clamp(f.speechiness as int, 0, 1_000) <= 1_000);
        assert(0 <= spec_clamp(f.valence as int, 0, 1_000) <= 1_000);
        assert(-60_000 <= spec_clamp(f.loudness as int, -60_000, 0) <= 0);
        assert(0 <= spec_clamp(f.tempo as int, 0, 250_000) <= 250_000);
    }
}

} // verus!
