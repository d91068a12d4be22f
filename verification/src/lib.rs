//! Credential-cached aggregation client for a music-catalog API.
//!
//! The library holds the verified core of a catalog gateway: a token cache
//! that amortizes an OAuth client-credentials exchange, request construction
//! for the three upstream endpoints (search, batch metadata, batch audio
//! features), the positional join of metadata and feature results, and the
//! derivation of a fixed-dimension embedding vector from each feature record.
//! Network transport and the protocol front-ends live outside the library and
//! exchange plain values with it.

use vstd::prelude::*;

mod aggregate;
mod api;
mod catalog;
mod client;
mod error;
mod features;
mod text;
mod token;

pub use aggregate::BatchPlan;
pub use aggregate::attach_search_features;
pub use aggregate::join_tracks_features;
pub use aggregate::merge_search_and_features;
pub use aggregate::merge_tracks_and_features;
pub use aggregate::plan_features_request;
pub use aggregate::plan_search_request;
pub use aggregate::plan_tracks_request;
pub use aggregate::spec_embedding_consistent;
pub use aggregate::spec_is_join;
pub use aggregate::spec_is_search_join;
pub use aggregate::spec_join_pairs;
pub use aggregate::spec_opt_at;
pub use aggregate::track_ids_of;
pub use aggregate::validate_aggregation_ids;
pub use api::AlbumResponse;
pub use api::ArtistResponse;
pub use api::RpcTrack;
pub use api::SearchQuery;
pub use api::SearchResponse;
pub use api::TrackResponse;
pub use api::TracksWithFeaturesQuery;
pub use api::artist_names_joined;
pub use api::metadata_of;
pub use api::parse_ids;
pub use api::plan_ids_param;
pub use api::spec_parse_ids;
pub use api::rpc_tracks_of;
pub use api::search_response_plain;
pub use api::search_response_with_features;
pub use api::spec_metadata_pairs;
pub use api::spec_names_joined;
pub use api::track_to_response;
pub use api::track_with_features_to_response;
pub use api::tracks_response_of;
pub use catalog::Album;
pub use catalog::Artist;
pub use catalog::ExternalUrls;
pub use catalog::Image;
pub use catalog::SearchTracksResponse;
pub use catalog::SearchTracksWithFeaturesResponse;
pub use catalog::Track;
pub use catalog::TrackWithFeatures;
pub use client::MAX_FEATURE_IDS;
pub use client::MAX_TRACK_IDS;
pub use client::audio_features_url;
pub use client::clamp_limit;
pub use client::clamp_offset;
pub use client::is_success_status;
pub use client::join_ids;
pub use client::search_url;
pub use client::spec_clamp_limit;
pub use client::spec_clamp_offset;
pub use client::spec_comma_join;
pub use client::token_request_form;
pub use client::token_url;
pub use client::tracks_url;
pub use client::url_encoded_of;
pub use error::AppError;
pub use text::spec_is_blank;
pub use text::spec_trim;
pub use token::basic_auth_header;
pub use token::base64_of;
pub use token::lemma_cache_serves_until_expiry;
pub use token::lemma_expiry_not_in_past;
pub use token::spec_expires_at;
pub use token::Credential;
pub use token::TOKEN_SAFETY_MARGIN;
pub use token::TokenCache;
pub use token::TokenGrant;
pub use token::TokenOutcome;
pub use features::AudioFeatures;
pub use features::EMBED_SCALE;
pub use features::FEATURE_SCALE;
pub use features::default_key;
pub use features::default_time_signature;
pub use features::lemma_embedding_deterministic;
pub use features::lemma_embedding_within_unit_range;
pub use features::spec_embedding;

verus! {

/// Application configuration, as read from the process environment by the host.
#[derive(Debug, Clone)]
pub struct Config {
    pub port: u16,
    pub grpc_port: u16,
    pub spotify_client_id: String,
    pub spotify_client_secret: String,
}

} // verus!
