use spotify_gateway::AppError;
use spotify_gateway::BatchPlan;
use spotify_gateway::validate_aggregation_ids;
use spotify_gateway::clamp_limit;
use spotify_gateway::clamp_offset;
use spotify_gateway::join_ids;
use spotify_gateway::parse_ids;
use spotify_gateway::plan_features_request;
use spotify_gateway::plan_ids_param;
use spotify_gateway::plan_search_request;
use spotify_gateway::plan_tracks_request;
use spotify_gateway::search_url;
use spotify_gateway::tracks_url;
use spotify_gateway::audio_features_url;

fn ids(v: &[&str]) -> Vec<String> {
    v.iter().map(|s| String::from(*s)).collect()
}

#[test]
fn limit_defaults_and_clamps() {
    assert_eq!(clamp_limit(None), 20);
    assert_eq!(clamp_limit(Some(0)), 1);
    assert_eq!(clamp_limit(Some(1)), 1);
    assert_eq!(clamp_limit(Some(50)), 50);
    assert_eq!(clamp_limit(Some(999)), 50);
}

#[test]
fn offset_defaults_and_clamps() {
    assert_eq!(clamp_offset(None), 0);
    assert_eq!(clamp_offset(Some(1_000)), 1_000);
    assert_eq!(clamp_offset(Some(u32::MAX)), 1_000);
}

#[test]
fn search_url_sends_clamped_values_only() {
    // limit 999 and a huge offset never reach the wire raw
    let url = search_url("x", Some(999), Some(u32::MAX));
    assert_eq!(
        url,
        "https://api.spotify.com/v1/search?q=x&type=track&limit=50&offset=1000"
    );
}

#[test]
fn search_url_percent_encodes_the_query() {
    let url = search_url("a b&c", None, None);
    assert_eq!(
        url,
        "https://api.spotify.com/v1/search?q=a%20b%26c&type=track&limit=20&offset=0"
    );
}

#[test]
fn join_ids_in_order() {
    assert_eq!(join_ids(&ids(&["a", "b", "c"])), "a,b,c");
    assert_eq!(join_ids(&ids(&["solo"])), "solo");
    assert_eq!(join_ids(&ids(&[])), "");
}

#[test]
fn tracks_url_encodes_the_joined_ids() {
    let url = tracks_url(&ids(&["a", "b"]));
    assert_eq!(url, "https://api.spotify.com/v1/tracks?ids=a%2Cb");
}

#[test]
fn audio_features_url_encodes_the_joined_ids() {
    let url = audio_features_url(&ids(&["x1", "x2"]));
    assert_eq!(url, "https://api.spotify.com/v1/audio-features?ids=x1%2Cx2");
}

#[test]
fn empty_id_list_plans_no_request() {
    assert!(matches!(plan_tracks_request(&ids(&[])), Ok(BatchPlan::Empty)));
    assert!(matches!(plan_features_request(&ids(&[])), Ok(BatchPlan::Empty)));
}

#[test]
fn empty_id_list_is_rejected_by_the_aggregation() {
    match validate_aggregation_ids(&ids(&[])) {
        Err(AppError::BadRequest(m)) => assert_eq!(m, "at least one track id required"),
        _ => panic!("expected a bad-request error"),
    }
    assert!(validate_aggregation_ids(&ids(&["a"])).is_ok());
}

#[test]
fn oversized_id_list_is_rejected() {
    let many: Vec<String> = (0..51).map(|i| format!("id{}", i)).collect();
    assert!(plan_tracks_request(&many).is_err());
    assert!(validate_aggregation_ids(&many).is_err());
    assert!(plan_features_request(&many).is_ok()); // features cap is 100
    let too_many: Vec<String> = (0..101).map(|i| format!("id{}", i)).collect();
    assert!(plan_features_request(&too_many).is_err());
}

#[test]
fn single_id_plans_a_request() {
    match plan_tracks_request(&ids(&["abc"])).unwrap() {
        BatchPlan::Fetch(url) => {
            assert_eq!(url, "https://api.spotify.com/v1/tracks?ids=abc")
        },
        BatchPlan::Empty => panic!("expected a request to send"),
    }
}

#[test]
fn blank_query_is_rejected_before_any_request() {
    match plan_search_request("", None, None) {
        Err(AppError::BadRequest(m)) => {
            assert_eq!(m, "query 'q' is required and cannot be empty")
        },
        _ => panic!("expected a bad-request error"),
    }
    assert!(plan_search_request("   \t ", None, None).is_err());
}

#[test]
fn nonblank_query_plans_a_request() {
    let url = plan_search_request("hello", Some(5), None).unwrap();
    assert_eq!(
        url,
        "https://api.spotify.com/v1/search?q=hello&type=track&limit=5&offset=0"
    );
}

#[test]
fn parse_ids_splits_trims_and_drops_blanks() {
    assert_eq!(parse_ids(" a, b ,,c "), ids(&["a", "b", "c"]));
    assert_eq!(parse_ids("one"), ids(&["one"]));
    assert_eq!(parse_ids(""), ids(&[]));
    assert_eq!(parse_ids(" , ,"), ids(&[]));
}

#[test]
fn blank_ids_param_is_rejected() {
    match plan_ids_param("  ") {
        Err(AppError::BadRequest(m)) => {
            assert_eq!(m, "ids is required (comma-separated track IDs)")
        },
        _ => panic!("expected a bad-request error"),
    }
}

#[test]
fn ids_param_parses_when_present() {
    assert_eq!(plan_ids_param("a,b").unwrap(), ids(&["a", "b"]));
}
