//! Error taxonomy of the gateway core.

use vstd::prelude::*;

verus! {

/// Application error type.
///
/// `Spotify` covers every upstream failure (non-success status, transport
/// failure, malformed body); `BadRequest` covers caller-level misuse that
/// never contacts upstream; `Internal` covers faults of the process itself.
#[derive(Debug, Clone)]
pub enum AppError {
    Spotify(String),
    BadRequest(String),
    Internal(String),
}

impl AppError {
    /// The HTTP status code a front-end maps this error onto: a gateway
    /// error for upstream failures, a client error for misuse.
    pub fn status_code(&self) -> (r: u16)
        ensures
            r == self.spec_status_code(),
    {
        match self {
            AppError::Spotify(_) => 502,
            AppError::BadRequest(_) => 400,
            AppError::Internal(_) => 500,
        }
    }

    pub open spec fn spec_status_code(&self) -> u16 {
        match self {
            AppError::Spotify(_) => 502u16,
            AppError::BadRequest(_) => 400u16,
            AppError::Internal(_) => 500u16,
        }
    }

    /// The human-readable message carried by the error.
    pub fn message(&self) -> (r: &String)
        ensures
            r@ == self.spec_message(),
    {
        match self {
            AppError::Spotify(m) => m,
            AppError::BadRequest(m) => m,
            AppError::Internal(m) => m,
        }
    }

    pub open spec fn spec_message(&self) -> Seq<char> {
        match self {
            AppError::Spotify(m) => m@,
            AppError::BadRequest(m) => m@,
            AppError::Internal(m) => m@,
        }
    }
}

} // verus!
