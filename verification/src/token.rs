//! The credential cache: a single slot holding at most one bearer token,
//! refreshed on demand through an OAuth client-credentials exchange.
//!
//! The cache itself never performs I/O. The host performs the exchange and
//! hands the terminal outcome to [`TokenCache::apply_token_response`]; the
//! fast path is [`TokenCache::cached_token`]. Sharing the cache across
//! concurrent callers (behind a reader-writer lock) is the host's concern:
//! every state change here is a plain `&mut` method.

use vstd::prelude::*;
use vstd::string::StringExecFns;

use crate::error::AppError;
use crate::text::push_u32_dec;
use crate::text::spec_u32_dec;

verus! {

/// Seconds subtracted from an upstream token lifetime before it is trusted,
/// so a token is never used right at its expiry.
pub const TOKEN_SAFETY_MARGIN: u64 = 60;

/// A cached bearer credential. Owned exclusively by the cache; callers only
/// ever receive the token string.
pub struct Credential {
    pub access_token: String,
    pub expires_at: u64,
}

/// What a successful token exchange granted: the token and its lifetime in
/// seconds, as the endpoint reported them.
pub struct TokenGrant {
    pub access_token: String,
    pub expires_in: u64,
}

/// One terminal outcome of a token-exchange attempt, as observed by the
/// host that performed the HTTP call.
pub enum TokenOutcome {
    /// A success status with a well-formed body.
    Granted(TokenGrant),
    /// A non-success HTTP status, with the body text.
    HttpFailure(u16, String),
    /// No response at all; carries the transport error's description.
    Transport(String),
    /// A success status whose body could not be parsed.
    Malformed(String),
}

/// The credential cache: at most one credential, replaced wholesale on a
/// successful refresh and left untouched by a failed one.
pub struct TokenCache {
    cred: Option<Credential>,
}

/// The expiry instant computed from a grant: `now` plus the granted
/// lifetime less the safety margin, with the subtraction clamped at zero
/// (a lifetime under the margin never puts the expiry in the past) and the
/// addition saturating at the top of the clock's range.
pub open spec fn spec_expires_at(now: u64, ttl: u64) -> int {
    let extra = if ttl >= TOKEN_SAFETY_MARGIN {
        ttl - TOKEN_SAFETY_MARGIN
    } else {
        0
    };
    if now + extra <= u64::MAX {
        now + extra
    } else {
        u64::MAX as int
    }
}

pub open spec fn spec_token_transport_msg(e: Seq<char>) -> Seq<char> {
    "token request failed: "@ + e
}

pub open spec fn spec_token_http_msg(status: int, body: Seq<char>) -> Seq<char> {
    "token request failed: "@ + spec_u32_dec(status) + " - "@ + body
}

pub open spec fn spec_token_parse_msg(e: Seq<char>) -> Seq<char> {
    "token parse failed: "@ + e
}

impl TokenCache {
    pub closed spec fn spec_cred(&self) -> Option<Credential> {
        self.cred
    }

    /// Whether the cache holds a credential still valid at `now`.
    pub open spec fn spec_valid_at(&self, now: u64) -> bool {
        self.spec_cred() matches Some(c) && c.expires_at > now
    }

    /// The cached token string (meaningful only while a credential is held).
    pub open spec fn spec_token(&self) -> Seq<char> {
        match self.spec_cred() {
            Some(c) => c.access_token@,
            None => Seq::<char>::empty(),
        }
    }

    /// A cache holding no credential.
    pub fn new() -> (r: TokenCache)
        ensures
            r.spec_cred() is None,
    {
        TokenCache { cred: None }
    }

    /// Fast path: the cached token, exactly when a credential is held and
    /// not yet expired at `now`. `None` means a refresh is needed; the
    /// cache itself is not touched either way.
    pub fn cached_token(&self, now: u64) -> (r: Option<String>)
        ensures
            r is Some <==> self.spec_valid_at(now),
            r matches Some(t) ==> t@ == self.spec_token(),
    {
        match &self.cred {
            Some(c) => {
                if c.expires_at > now {
                    Some(c.access_token.clone())
                } else {
                    None
                }
            },
            None => None,
        }
    }

    /// The expiry instant stored for a grant received at `now` with
    /// lifetime `ttl`: see [`spec_expires_at`]. Never earlier than `now`.
    pub fn compute_expires_at(now: u64, ttl: u64) -> (r: u64)
        ensures
            r as int == spec_expires_at(now, ttl),
            r >= now,
    {
        let extra: u64 = if ttl >= TOKEN_SAFETY_MARGIN {
            ttl - TOKEN_SAFETY_MARGIN
        } else {
            0
        };
        if now <= u64::MAX - extra {
            now + extra
        } else {
            u64::MAX
        }
    }

    /// Slow path, after the host performed the exchange: on a grant, store
    /// the credential (replacing any previous one) and return its token; on
    /// any failure, leave the cache exactly as it was and return the
    /// upstream failure, with the status and body kept in the message.
    pub fn apply_token_response(&mut self, now: u64, outcome: TokenOutcome) -> (r: Result<
        String,
        AppError,
    >)
        ensures
            r is Ok <==> outcome is Granted,
            outcome matches TokenOutcome::Granted(g) ==> {
                &&& r matches Ok(t) && t@ == g.access_token@
                &&& final(self).spec_cred() matches Some(c) && c.access_token@
                    == g.access_token@ && c.expires_at as int == spec_expires_at(
                    now,
                    g.expires_in,
                )
            },
            !(outcome is Granted) ==> *final(self) == *old(self),
            outcome matches TokenOutcome::Transport(e) ==> r matches Err(
                AppError::Spotify(m),
            ) && m@ == spec_token_transport_msg(e@),
            outcome matches TokenOutcome::HttpFailure(status, body) ==> r matches Err(
                AppError::Spotify(m),
            ) && m@ == spec_token_http_msg(status as int, body@),
            outcome matches TokenOutcome::Malformed(e) ==> r matches Err(
                AppError::Spotify(m),
            ) && m@ == spec_token_parse_msg(e@),
    {
        match outcome {
            TokenOutcome::Granted(g) => {
                let expires_at = Self::compute_expires_at(now, g.expires_in);
                let token = g.access_token.clone();
                self.cred = Some(Credential { access_token: g.access_token, expires_at });
                Ok(token)
            },
            TokenOutcome::Transport(e) => {
                let mut m = String::from_str("token request failed: ");
                m.append(e.as_str());
                Err(AppError::Spotify(m))
            },
            TokenOutcome::HttpFailure(status, body) => {
                let mut m = String::from_str("token request failed: ");
                push_u32_dec(&mut m, status as u32);
                m.append(" - ");
                m.append(body.as_str());
                proof {
                    assert(m@ =~= spec_token_http_msg(status as int, body@));
                }
                Err(AppError::Spotify(m))
            },
            TokenOutcome::Malformed(e) => {
                let mut m = String::from_str("token parse failed: ");
                m.append(e.as_str());
                Err(AppError::Spotify(m))
            },
        }
    }
}

/// What base64's standard engine returns for a string: the base64 form of
/// its UTF-8 bytes.
pub uninterp spec fn base64_of(s: Seq<char>) -> Seq<char>;

/// Relies on base64's `STANDARD` engine (fixed alphabet, padded): the
/// encoding of the UTF-8 bytes of `s` is a function of `s` alone.
#[verifier::external_body]
fn base64_encode_str(s: &str) -> (r: String)
    ensures
        r@ == base64_of(s@),
{
    base64::Engine::encode(&base64::engine::general_purpose::STANDARD, s.as_bytes())
}

/// The Authorization header value of a token exchange: HTTP basic
/// credentials, the client id and secret joined by a colon and base64
/// encoded.
pub fn basic_auth_header(client_id: &str, client_secret: &str) -> (r: String)
    ensures
        r@ == "Basic "@ + base64_of(client_id@ + ":"@ + client_secret@),
{
    let mut creds = String::from_str(client_id);
    creds.append(":");
    creds.append(client_secret);
    proof {
        assert(creds@ =~= client_id@ + ":"@ + client_secret@);
    }
    let encoded = base64_encode_str(creds.as_str());
    let mut r = String::from_str("Basic ");
    r.append(encoded.as_str());
    r
}

/// Law: a computed expiry is never in the past relative to the instant the
/// grant was issued, even when the granted lifetime is smaller than the
/// safety margin.
pub proof fn lemma_expiry_not_in_past(now: u64, ttl: u64)
    ensures
        spec_expires_at(now, ttl) >= now,
{
}

/// Law: once a refresh has stored a credential, every call strictly before
/// the stored expiry is served from the cache — the cached token is valid
/// and equals the granted one, so no second exchange happens until the
/// expiry has elapsed.
pub proof fn lemma_cache_serves_until_expiry(
    refreshed: TokenCache,
    g: TokenGrant,
    now: u64,
    later: u64,
)
    requires
        refreshed.spec_cred() matches Some(c) && c.access_token@ == g.access_token@
            && c.expires_at as int == spec_expires_at(now, g.expires_in),
        (later as int) < spec_expires_at(now, g.expires_in),
    ensures
        refreshed.spec_valid_at(later),
        refreshed.spec_token() == g.access_token@,
{
}

} // verus!
