use spotify_gateway::AppError;
use spotify_gateway::TokenCache;
use spotify_gateway::TokenGrant;
use spotify_gateway::TokenOutcome;
use spotify_gateway::basic_auth_header;
use spotify_gateway::is_success_status;
use spotify_gateway::token_request_form;
use spotify_gateway::token_url;

fn grant(token: &str, ttl: u64) -> TokenOutcome {
    TokenOutcome::Granted(TokenGrant { access_token: String::from(token), expires_in: ttl })
}

#[test]
fn empty_cache_has_no_token() {
    let cache = TokenCache::new();
    assert!(cache.cached_token(0).is_none());
    assert!(cache.cached_token(u64::MAX).is_none());
}

#[test]
fn grant_stores_token_until_expiry() {
    let mut cache = TokenCache::new();
    let r = cache.apply_token_response(1_000, grant("tok-a", 3_660));
    assert_eq!(r.unwrap(), "tok-a");
    // expires at 1000 + (3660 - 60) = 4600
    assert_eq!(cache.cached_token(1_000).unwrap(), "tok-a");
    assert_eq!(cache.cached_token(4_599).unwrap(), "tok-a");
    assert!(cache.cached_token(4_600).is_none());
}

#[test]
fn short_ttl_clamps_to_zero_extra_margin() {
    let mut cache = TokenCache::new();
    // ttl below the safety margin: expiry is exactly "now", never the past
    let r = cache.apply_token_response(100, grant("tok-b", 30));
    assert_eq!(r.unwrap(), "tok-b");
    assert_eq!(cache.cached_token(99).unwrap(), "tok-b");
    assert!(cache.cached_token(100).is_none());
}

#[test]
fn grant_replaces_previous_credential() {
    let mut cache = TokenCache::new();
    cache.apply_token_response(0, grant("old", 1_060)).unwrap();
    cache.apply_token_response(500, grant("new", 1_060)).unwrap();
    assert_eq!(cache.cached_token(900).unwrap(), "new");
}

#[test]
fn http_failure_reports_status_and_body() {
    let mut cache = TokenCache::new();
    let r = cache.apply_token_response(
        0,
        TokenOutcome::HttpFailure(503, String::from("busy")),
    );
    match r {
        Err(AppError::Spotify(m)) => assert_eq!(m, "token request failed: 503 - busy"),
        _ => panic!("expected an upstream error"),
    }
}

#[test]
fn transport_failure_reports_description() {
    let mut cache = TokenCache::new();
    let r = cache.apply_token_response(0, TokenOutcome::Transport(String::from("refused")));
    match r {
        Err(AppError::Spotify(m)) => assert_eq!(m, "token request failed: refused"),
        _ => panic!("expected an upstream error"),
    }
}

#[test]
fn parse_failure_reports_description() {
    let mut cache = TokenCache::new();
    let r = cache.apply_token_response(0, TokenOutcome::Malformed(String::from("bad json")));
    match r {
        Err(AppError::Spotify(m)) => assert_eq!(m, "token parse failed: bad json"),
        _ => panic!("expected an upstream error"),
    }
}

#[test]
fn failed_refresh_leaves_cache_unchanged() {
    let mut cache = TokenCache::new();
    cache.apply_token_response(0, grant("kept", 1_060)).unwrap();
    let r = cache.apply_token_response(10, TokenOutcome::Transport(String::from("down")));
    assert!(r.is_err());
    assert_eq!(cache.cached_token(500).unwrap(), "kept");
}

#[test]
fn basic_auth_header_encodes_credentials() {
    // base64("id:secret") == "aWQ6c2VjcmV0"
    assert_eq!(basic_auth_header("id", "secret"), "Basic aWQ6c2VjcmV0");
}

#[test]
fn basic_auth_header_of_empty_credentials() {
    // base64(":") == "Og=="
    assert_eq!(basic_auth_header("", ""), "Basic Og==");
}

#[test]
fn token_endpoint_constants() {
    assert_eq!(token_url(), "https://accounts.spotify.com/api/token");
    assert_eq!(token_request_form(), "grant_type=client_credentials");
}

#[test]
fn success_statuses_are_the_2xx_range() {
    assert!(is_success_status(200));
    assert!(is_success_status(204));
    assert!(is_success_status(299));
    assert!(!is_success_status(300));
    assert!(!is_success_status(404));
    assert!(!is_success_status(199));
}
