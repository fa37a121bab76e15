//! The top-level pipeline as a state machine: each state names the one piece
//! of outside input the caller must supply next (a profile lookup, a cache
//! file's content, the clock, a remote response), and [`step`] takes the
//! pipeline from one state to the next, short-circuiting on failure and on
//! recoverable not-ready conditions.

use vstd::prelude::*;

use crate::credentials::{
    first_missing_field, normalize_credentials, response_complete, RoleCredentialsResponse,
};
use crate::emit::{comment_line_spec, render_output};
use crate::profile::{
    first_missing_attr, lookup_complete, resolve_profile, ProfileLookup, SsoProfile,
};
use crate::timestamp::{
    format_rfc3339_nanos, representable_nanos, rfc3339_encodable, rfc3339_nanos_of,
    rfc3339_text_of, Timestamp,
};
use crate::token::{
    check_expiry, expiry_of, load_token, token_json_of, CachedSsoToken, ExpiryStatus, TokenStatus,
};

verus! {

/// How a run ends.
#[derive(Debug)]
pub enum RunOutcome {
    /// Credentials were obtained: the lines go to the primary output stream,
    /// and the run succeeds.
    Emitted { lines: Vec<String> },
    /// A recoverable not-ready condition (no cached token, a malformed or
    /// expired one): the diagnostic goes to the error stream, and the run
    /// still succeeds, with no output lines.
    NotReady { diagnostic: String },
    /// A hard failure: the diagnostic goes to the error stream, and the run
    /// fails, with no output lines.
    Failed { diagnostic: String },
}

/// Where the pipeline stands. Every non-terminal state names the outside
/// input the caller must supply to move on.
#[derive(Debug)]
pub enum PipelineState {
    /// Waiting for the configuration store's answer for the named profile.
    Start { profile_name: String },
    /// The profile is validated; waiting for the content of the cache file
    /// named [`crate::token::cache_file_name`] of the profile's start URL,
    /// or `None` where no such file exists.
    NeedCacheFile { profile: SsoProfile },
    /// The cached token is loaded and its expiry parsed; waiting for the
    /// current instant.
    NeedClock { profile: SsoProfile, token: CachedSsoToken, expires_at: Timestamp },
    /// The token is fresh; waiting for the remote exchange's response, made
    /// with the profile's account id and role name and the token's access
    /// token, against the token's region.
    NeedRemote { profile: SsoProfile, token: CachedSsoToken, expiry_text: String },
    /// The run is over.
    Finished { outcome: RunOutcome },
}

/// A pipeline event: one piece of outside input.
#[derive(Debug)]
pub enum PipelineEvent {
    /// The configuration store's answer, for a [`PipelineState::Start`].
    ProfileData { lookup: ProfileLookup },
    /// The cache file's content, or `None` where the file or its directory
    /// does not exist, for a [`PipelineState::NeedCacheFile`].
    CacheFile { content: Option<String> },
    /// The current instant, for a [`PipelineState::NeedClock`].
    Clock { now: Timestamp },
    /// The remote exchange's credential record, or `None` where the response
    /// carried none, for a [`PipelineState::NeedRemote`].
    RemoteResponse { response: Option<RoleCredentialsResponse> },
}

/// The pipeline's invariant: a start state names a non-empty profile, and
/// every later state carries a validated profile.
pub open spec fn state_wf(state: PipelineState) -> bool {
    match state {
        PipelineState::Start { profile_name } => profile_name@.len() > 0,
        PipelineState::NeedCacheFile { profile } => profile.wf(),
        PipelineState::NeedClock { profile, .. } => profile.wf(),
        PipelineState::NeedRemote { profile, .. } => profile.wf(),
        PipelineState::Finished { .. } => true,
    }
}

/// Whether an event answers what the state is waiting for.
pub open spec fn expects(state: PipelineState, event: PipelineEvent) -> bool {
    match (state, event) {
        (PipelineState::Start { .. }, PipelineEvent::ProfileData { .. }) => true,
        (PipelineState::NeedCacheFile { .. }, PipelineEvent::CacheFile { .. }) => true,
        (PipelineState::NeedClock { .. }, PipelineEvent::Clock { .. }) => true,
        (PipelineState::NeedRemote { .. }, PipelineEvent::RemoteResponse { .. }) => true,
        _ => false,
    }
}

/// The diagnostic for a missing cache file.
pub open spec fn absent_message_spec(profile_name: Seq<char>) -> Seq<char> {
    "no cached SSO token for profile '"@ + profile_name + "'"@
}

/// The diagnostic for an unreadable cache file, carrying the parser's detail.
pub open spec fn malformed_message_spec(detail: Seq<char>) -> Seq<char> {
    "unable to deserialize cached SSO token: "@ + detail
}

/// Whether a diagnostic reports an unreadable cache file: the fixed prefix,
/// followed by some parse detail.
pub open spec fn is_malformed_message(diagnostic: Seq<char>) -> bool {
    exists|detail: Seq<char>| diagnostic == #[trigger] malformed_message_spec(detail)
}

/// The diagnostic for an expired cached token.
pub open spec fn expired_message_spec(expiry_text: Seq<char>, profile_name: Seq<char>) -> Seq<
    char,
> {
    "cached SSO token is expired as of "@ + expiry_text + "; run 'aws --profile "@ + profile_name
        + " sso login' to refresh credentials"@
}

/// Advance the pipeline by one stage.
///
/// Profile resolution failures, remote-exchange failures and a token expiry
/// that cannot be encoded as RFC 3339 finish the run as failed, with the
/// stage's own diagnostic. An absent, malformed or expired
/// cached token, and one whose expiry text does not parse, finish the run as
/// not ready. A fresh token moves the pipeline on, and a complete remote
/// response finishes it with exactly four output lines: the comment line
/// stating the expiry, then the three export lines carrying the returned
/// secrets. Secret material held by a finishing run is scrubbed before the
/// state is handed back.
pub fn step(state: PipelineState, event: PipelineEvent) -> (r: PipelineState)
    requires
        state_wf(state),
    ensures
        state_wf(r),
        !expects(state, event) ==> (r matches PipelineState::Finished { outcome } && outcome
            is Failed),
        state matches PipelineState::Start { profile_name } ==> event
            matches PipelineEvent::ProfileData { lookup } ==> {
            &&& !lookup.found ==> (r matches PipelineState::Finished { outcome } && (outcome
                matches RunOutcome::Failed { diagnostic } && diagnostic@ == "profile '"@
                + profile_name@ + "' not found"@))
            &&& lookup.found && !lookup_complete(lookup) ==> (r matches PipelineState::Finished {
                outcome,
            } && (outcome matches RunOutcome::Failed { diagnostic } && diagnostic@
                == "profile must have "@ + first_missing_attr(lookup).name_spec()
                + " property set"@))
            &&& lookup_complete(lookup) ==> (r matches PipelineState::NeedCacheFile { profile } && {
                &&& profile.profile_name@ == profile_name@
                &&& profile.region == lookup.region->0
                &&& profile.sso_account_id == lookup.sso_account_id->0
                &&& profile.sso_region == lookup.sso_region->0
                &&& profile.sso_role_name == lookup.sso_role_name->0
                &&& profile.sso_start_url == lookup.sso_start_url->0
            })
        },
        state matches PipelineState::NeedCacheFile { profile } ==> event
            matches PipelineEvent::CacheFile { content } ==> {
            &&& content is None ==> (r matches PipelineState::Finished { outcome } && (outcome
                matches RunOutcome::NotReady { diagnostic } && diagnostic@ == absent_message_spec(
                profile.profile_name@,
            )))
            &&& content matches Some(s) ==> {
                &&& token_json_of(s@) is None ==> (r matches PipelineState::Finished { outcome }
                    && (outcome matches RunOutcome::NotReady { diagnostic }
                    && is_malformed_message(diagnostic@)))
                &&& token_json_of(s@) matches Some(fields) ==> {
                    &&& rfc3339_nanos_of(fields.1) is None ==> (r
                        matches PipelineState::Finished { outcome } && (outcome
                        matches RunOutcome::NotReady { diagnostic } && diagnostic@
                        == "cached SSO token has an unparsable expiry timestamp"@))
                    &&& rfc3339_nanos_of(fields.1) matches Some(nanos) ==> (r
                        matches PipelineState::NeedClock { profile: p, token, expires_at } && {
                        &&& p == profile
                        &&& token.access_token@ == fields.0
                        &&& token.expires_at@ == fields.1
                        &&& token.region@ == fields.2
                        &&& token.start_url@ == fields.3
                        &&& expires_at.nanos as int == nanos
                    })
                }
            }
        },
        state matches PipelineState::NeedClock { profile, token, expires_at } ==> event
            matches PipelineEvent::Clock { now } ==> {
            &&& !rfc3339_encodable(expires_at.nanos as int) ==> (r
                matches PipelineState::Finished { outcome } && (outcome
                matches RunOutcome::Failed { diagnostic } && diagnostic@
                == "unable to encode the token expiry as RFC 3339"@))
            &&& rfc3339_encodable(expires_at.nanos as int) ==> {
                &&& expiry_of(expires_at.nanos as int, now.nanos as int) == ExpiryStatus::Expired
                    ==> (r matches PipelineState::Finished { outcome } && (outcome
                    matches RunOutcome::NotReady { diagnostic } && diagnostic@
                    == expired_message_spec(
                    rfc3339_text_of(expires_at.nanos as int),
                    profile.profile_name@,
                )))
                &&& expiry_of(expires_at.nanos as int, now.nanos as int) == ExpiryStatus::Fresh
                    ==> (r matches PipelineState::NeedRemote { profile: p, token: t, expiry_text }
                    && {
                    &&& p == profile
                    &&& t == token
                    &&& expiry_text@ == rfc3339_text_of(expires_at.nanos as int)
                })
            }
        },
        state matches PipelineState::NeedRemote { profile, token, expiry_text } ==> event
            matches PipelineEvent::RemoteResponse { response } ==> {
            &&& response is None ==> (r matches PipelineState::Finished { outcome } && (outcome
                matches RunOutcome::Failed { diagnostic } && diagnostic@
                == "response did not contain any credentials"@))
            &&& response matches Some(resp) ==> {
                &&& !response_complete(resp) ==> (r matches PipelineState::Finished { outcome }
                    && (outcome matches RunOutcome::Failed { diagnostic } && diagnostic@
                    == "response did not contain "@ + first_missing_field(resp).describe_spec()))
                &&& response_complete(resp) && !representable_nanos(resp.expiration->0 as int)
                    ==> (r matches PipelineState::Finished { outcome } && (outcome
                    matches RunOutcome::Failed { diagnostic } && diagnostic@
                    == "unable to parse expiration date from role credentials"@))
                &&& response_complete(resp) && representable_nanos(resp.expiration->0 as int)
                    ==> (r matches PipelineState::Finished { outcome } && (outcome
                    matches RunOutcome::Emitted { lines } && {
                    &&& lines@.len() == 4
                    &&& lines@[0]@ == comment_line_spec(expiry_text@)
                    &&& lines@[1]@ == "export AWS_ACCESS_KEY_ID="@ + resp.access_key_id->0@
                    &&& lines@[2]@ == "export AWS_SECRET_ACCESS_KEY="@
                        + resp.secret_access_key->0@
                    &&& lines@[3]@ == "export AWS_SESSION_TOKEN="@ + resp.session_token->0@
                }))
            }
        },
{
    match (state, event) {
        (PipelineState::Start { profile_name }, PipelineEvent::ProfileData { lookup }) => {
            match resolve_profile(profile_name.as_str(), lookup) {
                Ok(profile) => PipelineState::NeedCacheFile { profile },
                Err(e) => PipelineState::Finished {
                    outcome: RunOutcome::Failed { diagnostic: e.message() },
                },
            }
        },
        (PipelineState::NeedCacheFile { profile }, PipelineEvent::CacheFile { content }) => {
            let status = match &content {
                Some(s) => load_token(Some(s.as_str())),
                None => load_token(None),
            };
            match status {
                TokenStatus::Absent => {
                    let mut diagnostic = String::from_str("no cached SSO token for profile '");
                    diagnostic.append(profile.profile_name.as_str());
                    diagnostic.append("'");
                    PipelineState::Finished { outcome: RunOutcome::NotReady { diagnostic } }
                },
                TokenStatus::Malformed { detail } => {
                    let mut diagnostic = String::from_str(
                        "unable to deserialize cached SSO token: ",
                    );
                    diagnostic.append(detail.as_str());
                    proof {
                        assert(diagnostic@ == malformed_message_spec(detail@));
                    }
                    PipelineState::Finished { outcome: RunOutcome::NotReady { diagnostic } }
                },
                TokenStatus::Valid { token } => {
                    match token.expires_at() {
                        Some(expires_at) => PipelineState::NeedClock {
                            profile,
                            token,
                            expires_at,
                        },
                        None => {
                            let mut token = token;
                            token.scrub();
                            PipelineState::Finished {
                                outcome: RunOutcome::NotReady {
                                    diagnostic: String::from_str(
                                        "cached SSO token has an unparsable expiry timestamp",
                                    ),
                                },
                            }
                        },
                    }
                },
            }
        },
        (
            PipelineState::NeedClock { profile, token, expires_at },
            PipelineEvent::Clock { now },
        ) => {
            match format_rfc3339_nanos(expires_at.nanos) {
                None => {
                    let mut token = token;
                    token.scrub();
                    PipelineState::Finished {
                        outcome: RunOutcome::Failed {
                            diagnostic: String::from_str(
                                "unable to encode the token expiry as RFC 3339",
                            ),
                        },
                    }
                },
                Some(expiry_text) => {
                    match check_expiry(expires_at, now) {
                        ExpiryStatus::Expired => {
                            let mut token = token;
                            token.scrub();
                            let mut diagnostic = String::from_str(
                                "cached SSO token is expired as of ",
                            );
                            diagnostic.append(expiry_text.as_str());
                            diagnostic.append("; run 'aws --profile ");
                            diagnostic.append(profile.profile_name.as_str());
                            diagnostic.append(" sso login' to refresh credentials");
                            PipelineState::Finished {
                                outcome: RunOutcome::NotReady { diagnostic },
                            }
                        },
                        ExpiryStatus::Fresh => PipelineState::NeedRemote {
                            profile,
                            token,
                            expiry_text,
                        },
                    }
                },
            }
        },
        (
            PipelineState::NeedRemote { profile: _, token, expiry_text },
            PipelineEvent::RemoteResponse { response },
        ) => {
            let mut token = token;
            token.scrub();
            match normalize_credentials(response) {
                Ok(credentials) => {
                    let mut credentials = credentials;
                    let lines = render_output(&credentials, expiry_text.as_str());
                    credentials.scrub();
                    PipelineState::Finished { outcome: RunOutcome::Emitted { lines } }
                },
                Err(e) => PipelineState::Finished {
                    outcome: RunOutcome::Failed { diagnostic: e.message() },
                },
            }
        },
        (_, _) => PipelineState::Finished {
            outcome: RunOutcome::Failed {
                diagnostic: String::from_str("pipeline event does not match its state"),
            },
        },
    }
}

} // verus!
