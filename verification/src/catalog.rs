//! Catalog data model: tracks, artists, albums, and the joined shapes the
//! aggregation engine produces.

use vstd::prelude::*;

use crate::features::AudioFeatures;

verus! {

#[derive(Debug, Clone)]
pub struct ExternalUrls {
    pub spotify: Option<String>,
}

#[derive(Debug, Clone)]
pub struct Image {
    pub url: Option<String>,
    pub width: Option<u32>,
    pub height: Option<u32>,
}

#[derive(Debug, Clone)]
pub struct Artist {
    pub id: Option<String>,
    pub name: String,
    pub external_urls: ExternalUrls,
}

#[derive(Debug, Clone)]
pub struct Album {
    pub id: Option<String>,
    pub name: String,
    pub images: Vec<Image>,
    pub external_urls: ExternalUrls,
}

/// A catalog track (simplified).
#[derive(Debug, Clone)]
pub struct Track {
    pub id: String,
    pub name: String,
    pub uri: String,
    pub duration_ms: u32,
    pub explicit: bool,
    pub artists: Vec<Artist>,
    pub album: Album,
    pub external_urls: ExternalUrls,
}

/// Response from track search.
#[derive(Debug, Clone)]
pub struct SearchTracksResponse {
    pub tracks: Vec<Track>,
    pub total: u32,
    pub limit: u32,
    pub offset: u32,
}

/// Track with optional audio features and embedding.
#[derive(Debug, Clone)]
pub struct TrackWithFeatures {
    pub track: Track,
    pub audio_features: Option<AudioFeatures>,
    pub embedding: Option<Vec<i64>>,
}

/// Search response with tracks and audio features/embeddings.
#[derive(Debug, Clone)]
pub struct SearchTracksWithFeaturesResponse {
    pub tracks: Vec<TrackWithFeatures>,
    pub total: u32,
    pub limit: u32,
    pub offset: u32,
}

} // verus!
