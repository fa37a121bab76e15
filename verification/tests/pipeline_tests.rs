use sso_env::credentials::RoleCredentialsResponse;
use sso_env::pipeline::{step, PipelineEvent, PipelineState, RunOutcome};
use sso_env::profile::ProfileLookup;
use sso_env::timestamp::Timestamp;
use sso_env::token::cache_file_name;

const START_URL: &str = "https://example.awsapps.com/start";

fn dev_lookup() -> ProfileLookup {
    ProfileLookup {
        found: true,
        region: Some("us-east-1".to_string()),
        sso_account_id: Some("111122223333".to_string()),
        sso_region: Some("us-west-2".to_string()),
        sso_role_name: Some("Developer".to_string()),
        sso_start_url: Some(START_URL.to_string()),
    }
}

fn cache_content(expires_at: &str) -> String {
    let mut s = String::new();
    s.push_str("{\"accessToken\":\"tok\",\"expiresAt\":\"");
    s.push_str(expires_at);
    s.push_str("\",\"region\":\"us-west-2\",\"startUrl\":\"");
    s.push_str(START_URL);
    s.push_str("\"}");
    s
}

fn full_response() -> RoleCredentialsResponse {
    RoleCredentialsResponse {
        access_key_id: Some("AKIDEXAMPLE".to_string()),
        secret_access_key: Some("wJalrXUtnFEMI".to_string()),
        session_token: Some("AQoDYXdzEJr".to_string()),
        expiration: Some(1_700_000_000_000_000_000),
    }
}

fn start() -> PipelineState {
    PipelineState::Start { profile_name: "dev".to_string() }
}

#[test]
fn full_run_emits_exactly_the_four_lines() {
    let state = step(start(), PipelineEvent::ProfileData { lookup: dev_lookup() });
    let profile = match &state {
        PipelineState::NeedCacheFile { profile } => profile,
        other => panic!("expected to need the cache file, got {:?}", other),
    };
    assert_eq!(profile.profile_name, "dev");
    // The caller would now read the file named after the start URL's digest.
    assert_eq!(cache_file_name(&profile.sso_start_url).len(), 45);

    let state = step(
        state,
        PipelineEvent::CacheFile { content: Some(cache_content("2999-01-01T00:00:00Z")) },
    );
    assert!(matches!(state, PipelineState::NeedClock { .. }));

    // 2023 lies well before the token's expiry in 2999.
    let state = step(
        state,
        PipelineEvent::Clock { now: Timestamp { nanos: 1_700_000_000_000_000_000 } },
    );
    match &state {
        PipelineState::NeedRemote { profile, token, expiry_text } => {
            assert_eq!(profile.sso_account_id, "111122223333");
            assert_eq!(token.access_token, "tok");
            assert_eq!(token.region, "us-west-2");
            assert_eq!(expiry_text, "2999-01-01T00:00:00Z");
        }
        other => panic!("expected to need the remote response, got {:?}", other),
    }

    let state = step(state, PipelineEvent::RemoteResponse { response: Some(full_response()) });
    match state {
        PipelineState::Finished { outcome: RunOutcome::Emitted { lines } } => {
            assert_eq!(
                lines,
                vec![
                    "# expires at 2999-01-01T00:00:00Z".to_string(),
                    "export AWS_ACCESS_KEY_ID=AKIDEXAMPLE".to_string(),
                    "export AWS_SECRET_ACCESS_KEY=wJalrXUtnFEMI".to_string(),
                    "export AWS_SESSION_TOKEN=AQoDYXdzEJr".to_string(),
                ]
            );
        }
        other => panic!("expected an emitted outcome, got {:?}", other),
    }
}

#[test]
fn absent_cache_file_ends_the_run_not_ready() {
    let state = step(start(), PipelineEvent::ProfileData { lookup: dev_lookup() });
    let state = step(state, PipelineEvent::CacheFile { content: None });
    match state {
        PipelineState::Finished { outcome: RunOutcome::NotReady { diagnostic } } => {
            assert_eq!(diagnostic, "no cached SSO token for profile 'dev'");
        }
        other => panic!("expected a not-ready outcome, got {:?}", other),
    }
}

#[test]
fn malformed_cache_file_ends_the_run_not_ready() {
    let state = step(start(), PipelineEvent::ProfileData { lookup: dev_lookup() });
    let state = step(state, PipelineEvent::CacheFile { content: Some("{oops".to_string()) });
    match state {
        PipelineState::Finished { outcome: RunOutcome::NotReady { diagnostic } } => {
            assert!(diagnostic.starts_with("unable to deserialize cached SSO token: "));
        }
        other => panic!("expected a not-ready outcome, got {:?}", other),
    }
}

#[test]
fn unparsable_expiry_ends_the_run_not_ready() {
    let state = step(start(), PipelineEvent::ProfileData { lookup: dev_lookup() });
    let state = step(
        state,
        PipelineEvent::CacheFile { content: Some(cache_content("whenever")) },
    );
    match state {
        PipelineState::Finished { outcome: RunOutcome::NotReady { diagnostic } } => {
            assert_eq!(diagnostic, "cached SSO token has an unparsable expiry timestamp");
        }
        other => panic!("expected a not-ready outcome, got {:?}", other),
    }
}

#[test]
fn expired_token_ends_the_run_not_ready() {
    let state = step(start(), PipelineEvent::ProfileData { lookup: dev_lookup() });
    let state = step(
        state,
        PipelineEvent::CacheFile { content: Some(cache_content("2020-01-01T00:00:00Z")) },
    );
    // The token expired at the start of 2020; the clock reads 2023.
    let state = step(
        state,
        PipelineEvent::Clock { now: Timestamp { nanos: 1_700_000_000_000_000_000 } },
    );
    match state {
        PipelineState::Finished { outcome: RunOutcome::NotReady { diagnostic } } => {
            assert_eq!(
                diagnostic,
                "cached SSO token is expired as of 2020-01-01T00:00:00Z; \
                 run 'aws --profile dev sso login' to refresh credentials"
            );
        }
        other => panic!("expected a not-ready outcome, got {:?}", other),
    }
}

#[test]
fn expiry_tie_ends_the_run_not_ready() {
    let state = step(start(), PipelineEvent::ProfileData { lookup: dev_lookup() });
    let state = step(
        state,
        PipelineEvent::CacheFile { content: Some(cache_content("2020-01-01T00:00:00Z")) },
    );
    // 2020-01-01T00:00:00Z is exactly 1577836800 seconds after the epoch.
    let state = step(
        state,
        PipelineEvent::Clock { now: Timestamp { nanos: 1_577_836_800_000_000_000 } },
    );
    assert!(matches!(
        state,
        PipelineState::Finished { outcome: RunOutcome::NotReady { .. } }
    ));
}

#[test]
fn unknown_profile_fails_the_run() {
    let lookup = ProfileLookup {
        found: false,
        region: None,
        sso_account_id: None,
        sso_region: None,
        sso_role_name: None,
        sso_start_url: None,
    };
    let state = step(start(), PipelineEvent::ProfileData { lookup });
    match state {
        PipelineState::Finished { outcome: RunOutcome::Failed { diagnostic } } => {
            assert_eq!(diagnostic, "profile 'dev' not found");
        }
        other => panic!("expected a failed outcome, got {:?}", other),
    }
}

#[test]
fn incomplete_profile_fails_the_run() {
    let mut lookup = dev_lookup();
    lookup.sso_start_url = None;
    let state = step(start(), PipelineEvent::ProfileData { lookup });
    match state {
        PipelineState::Finished { outcome: RunOutcome::Failed { diagnostic } } => {
            assert_eq!(diagnostic, "profile must have sso_start_url property set");
        }
        other => panic!("expected a failed outcome, got {:?}", other),
    }
}

#[test]
fn response_missing_secret_fails_with_no_output_lines() {
    let state = step(start(), PipelineEvent::ProfileData { lookup: dev_lookup() });
    let state = step(
        state,
        PipelineEvent::CacheFile { content: Some(cache_content("2999-01-01T00:00:00Z")) },
    );
    let state = step(
        state,
        PipelineEvent::Clock { now: Timestamp { nanos: 1_700_000_000_000_000_000 } },
    );
    let mut response = full_response();
    response.secret_access_key = None;
    let state = step(state, PipelineEvent::RemoteResponse { response: Some(response) });
    match state {
        PipelineState::Finished { outcome: RunOutcome::Failed { diagnostic } } => {
            assert_eq!(diagnostic, "response did not contain a secret access key");
        }
        other => panic!("expected a failed outcome, got {:?}", other),
    }
}

#[test]
fn empty_remote_response_fails_the_run() {
    let state = step(start(), PipelineEvent::ProfileData { lookup: dev_lookup() });
    let state = step(
        state,
        PipelineEvent::CacheFile { content: Some(cache_content("2999-01-01T00:00:00Z")) },
    );
    let state = step(
        state,
        PipelineEvent::Clock { now: Timestamp { nanos: 1_700_000_000_000_000_000 } },
    );
    let state = step(state, PipelineEvent::RemoteResponse { response: None });
    match state {
        PipelineState::Finished { outcome: RunOutcome::Failed { diagnostic } } => {
            assert_eq!(diagnostic, "response did not contain any credentials");
        }
        other => panic!("expected a failed outcome, got {:?}", other),
    }
}

#[test]
fn mismatched_event_fails_the_run() {
    let state = step(start(), PipelineEvent::CacheFile { content: None });
    assert!(matches!(
        state,
        PipelineState::Finished { outcome: RunOutcome::Failed { .. } }
    ));
}
