use sso_env::timestamp::Timestamp;
use sso_env::token::{
    cache_file_name, check_expiry, load_token, CachedSsoToken, ExpiryStatus, TokenStatus,
};

fn sample_token() -> CachedSsoToken {
    CachedSsoToken {
        access_token: "opaque-bearer".to_string(),
        expires_at: "1970-01-01T00:00:01Z".to_string(),
        region: "us-west-2".to_string(),
        start_url: "https://example.awsapps.com/start".to_string(),
    }
}

#[test]
fn cache_file_name_is_deterministic() {
    let a = cache_file_name("https://example.awsapps.com/start");
    let b = cache_file_name("https://example.awsapps.com/start");
    assert_eq!(a, b);
}

#[test]
fn cache_file_name_of_empty_text() {
    // The SHA-1 digest of the empty input is fixed and well known.
    assert_eq!(cache_file_name(""), "da39a3ee5e6b4b0d3255bfef95601890afd80709.json");
}

#[test]
fn cache_file_name_of_known_text() {
    assert_eq!(cache_file_name("abc"), "a9993e364706816aba3e25717850c26c9cd0d89d.json");
}

#[test]
fn different_start_urls_get_different_names() {
    let a = cache_file_name("https://one.awsapps.com/start");
    let b = cache_file_name("https://two.awsapps.com/start");
    assert_ne!(a, b);
    assert_eq!(a.len(), 45);
    assert_eq!(b.len(), 45);
}

#[test]
fn absent_content_loads_as_absent() {
    assert!(matches!(load_token(None), TokenStatus::Absent));
}

#[test]
fn invalid_json_loads_as_malformed() {
    assert!(matches!(load_token(Some("not json at all")), TokenStatus::Malformed { .. }));
}

#[test]
fn missing_member_loads_as_malformed() {
    let content = "{\"accessToken\":\"tok\",\"expiresAt\":\"2999-01-01T00:00:00Z\",\"region\":\"us-west-2\"}";
    assert!(matches!(load_token(Some(content)), TokenStatus::Malformed { .. }));
}

#[test]
fn non_string_member_loads_as_malformed() {
    let content = "{\"accessToken\":\"tok\",\"expiresAt\":17,\"region\":\"us-west-2\",\"startUrl\":\"https://x\"}";
    assert!(matches!(load_token(Some(content)), TokenStatus::Malformed { .. }));
}

#[test]
fn well_formed_content_loads_as_valid() {
    let content = "{\"accessToken\":\"tok\",\"expiresAt\":\"2999-01-01T00:00:00Z\",\"region\":\"us-west-2\",\"startUrl\":\"https://example.awsapps.com/start\"}";
    match load_token(Some(content)) {
        TokenStatus::Valid { token } => {
            assert_eq!(token.access_token, "tok");
            assert_eq!(token.expires_at, "2999-01-01T00:00:00Z");
            assert_eq!(token.region, "us-west-2");
            assert_eq!(token.start_url, "https://example.awsapps.com/start");
        }
        other => panic!("expected a valid token, got {:?}", other),
    }
}

#[test]
fn expiry_text_parses_to_the_instant() {
    let token = sample_token();
    let t = token.expires_at().unwrap();
    assert_eq!(t, Timestamp { nanos: 1_000_000_000 });
}

#[test]
fn expiry_text_with_offset_parses_to_utc_instant() {
    let mut token = sample_token();
    token.expires_at = "1970-01-01T01:00:00+01:00".to_string();
    let t = token.expires_at().unwrap();
    assert_eq!(t, Timestamp { nanos: 0 });
}

#[test]
fn unparsable_expiry_text_gives_none() {
    let mut token = sample_token();
    token.expires_at = "next tuesday".to_string();
    assert!(token.expires_at().is_none());
}

#[test]
fn expiry_tie_is_expired() {
    let instant = Timestamp { nanos: 1_577_836_800_000_000_000 };
    assert_eq!(check_expiry(instant, instant), ExpiryStatus::Expired);
}

#[test]
fn past_expiry_is_expired() {
    let expires = Timestamp { nanos: 10 };
    let now = Timestamp { nanos: 11 };
    assert_eq!(check_expiry(expires, now), ExpiryStatus::Expired);
}

#[test]
fn future_expiry_is_fresh() {
    let expires = Timestamp { nanos: 11 };
    let now = Timestamp { nanos: 10 };
    assert_eq!(check_expiry(expires, now), ExpiryStatus::Fresh);
}

#[test]
fn scrub_empties_every_field() {
    let mut token = sample_token();
    token.scrub();
    assert_eq!(token.access_token, "");
    assert_eq!(token.expires_at, "");
    assert_eq!(token.region, "");
    assert_eq!(token.start_url, "");
}
