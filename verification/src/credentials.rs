//! Normalizing the remote identity exchange's response into a credential
//! record: every expected field must be present, and the expiration converts
//! into the canonical timestamp representation.

use vstd::prelude::*;

use crate::scrub::zeroize_string;
use crate::timestamp::{nanos_representable, representable_nanos, Timestamp};

verus! {

/// Temporary role credentials returned by the remote exchange. The three
/// secret strings exist only in memory for the duration of output formatting
/// and are scrubbed once no longer needed.
#[derive(Debug)]
pub struct SsoCredentials {
    pub access_key_id: String,
    pub secret_access_key: String,
    pub session_token: String,
    /// When the credentials expire.
    pub expires_at: Timestamp,
}

/// One field of the remote exchange's response.
#[derive(Clone, Copy, Debug, PartialEq, Eq, Structural)]
pub enum ResponseField {
    AccessKeyId,
    SecretAccessKey,
    SessionToken,
    Expiration,
}

impl ResponseField {
    /// How the field is named in diagnostics.
    pub open spec fn describe_spec(&self) -> Seq<char> {
        match self {
            ResponseField::AccessKeyId => "an access key id"@,
            ResponseField::SecretAccessKey => "a secret access key"@,
            ResponseField::SessionToken => "a session token"@,
            ResponseField::Expiration => "an expiration"@,
        }
    }
}

/// Why the remote exchange's response yielded no credentials: every one is a
/// hard failure, never a partial success.
#[derive(Debug)]
pub enum FetchError {
    /// The response carried no credential record at all.
    MissingCredentials,
    /// The credential record lacks one expected field; defaults are never
    /// synthesized.
    MissingField { field: ResponseField },
    /// The expiration does not convert into a representable instant.
    ExpirationOutOfRange,
}

impl FetchError {
    /// The diagnostic line describing the failure.
    pub open spec fn message_spec(&self) -> Seq<char> {
        match self {
            FetchError::MissingCredentials => "response did not contain any credentials"@,
            FetchError::MissingField { field } => "response did not contain "@
                + field.describe_spec(),
            FetchError::ExpirationOutOfRange
                => "unable to parse expiration date from role credentials"@,
        }
    }

    /// The diagnostic line describing the failure.
    pub fn message(&self) -> (r: String)
        ensures
            r@ == self.message_spec(),
    {
        match self {
            FetchError::MissingCredentials => String::from_str(
                "response did not contain any credentials",
            ),
            FetchError::MissingField { field } => {
                let mut m = String::from_str("response did not contain ");
                match field {
                    ResponseField::AccessKeyId => m.append("an access key id"),
                    ResponseField::SecretAccessKey => m.append("a secret access key"),
                    ResponseField::SessionToken => m.append("a session token"),
                    ResponseField::Expiration => m.append("an expiration"),
                }
                m
            },
            FetchError::ExpirationOutOfRange => String::from_str(
                "unable to parse expiration date from role credentials",
            ),
        }
    }
}

/// The credential record of the remote response, as plain values: each
/// expected field, where the response carried it, and the expiration in
/// nanoseconds since the Unix epoch.
#[derive(Debug)]
pub struct RoleCredentialsResponse {
    pub access_key_id: Option<String>,
    pub secret_access_key: Option<String>,
    pub session_token: Option<String>,
    pub expiration: Option<i128>,
}

/// Whether a credential record carries every expected field.
pub open spec fn response_complete(resp: RoleCredentialsResponse) -> bool {
    &&& resp.access_key_id is Some
    &&& resp.secret_access_key is Some
    &&& resp.session_token is Some
    &&& resp.expiration is Some
}

/// The first field missing from a credential record, in the fixed order the
/// fields are checked.
pub open spec fn first_missing_field(resp: RoleCredentialsResponse) -> ResponseField {
    if resp.access_key_id is None {
        ResponseField::AccessKeyId
    } else if resp.secret_access_key is None {
        ResponseField::SecretAccessKey
    } else if resp.session_token is None {
        ResponseField::SessionToken
    } else {
        ResponseField::Expiration
    }
}

/// Take one expected field out of the credential record, or fail naming it.
fn require_field(value: Option<String>, field: ResponseField) -> (r: Result<String, FetchError>)
    ensures
        value is Some ==> (r matches Ok(s) && s == value->0),
        value is None ==> {
            &&& r matches Err(e)
            &&& e matches FetchError::MissingField { field: f }
            &&& f == field
        },
{
    match value {
        Some(s) => Ok(s),
        None => Err(FetchError::MissingField { field }),
    }
}

/// Normalize the remote exchange's response into a credential record.
///
/// Success is owed exactly where the response carries a credential record,
/// the record carries all four expected fields, and the expiration is a
/// representable instant; the credentials are then the three secret strings
/// as returned, with the expiration converted to the canonical timestamp
/// representation. Each failure names what was missing: the record, the
/// first missing field (in the fixed order access key id, secret access key,
/// session token, expiration), or a failed conversion.
pub fn normalize_credentials(response: Option<RoleCredentialsResponse>) -> (r: Result<
    SsoCredentials,
    FetchError,
>)
    ensures
        response is None ==> (r matches Err(e) && e is MissingCredentials),
        response matches Some(resp) ==> {
            &&& !response_complete(resp) ==> {
                &&& r matches Err(e)
                &&& e matches FetchError::MissingField { field }
                &&& field == first_missing_field(resp)
            }
            &&& response_complete(resp) && !representable_nanos(resp.expiration->0 as int) ==> (
            r matches Err(e) && e is ExpirationOutOfRange)
            &&& response_complete(resp) && representable_nanos(resp.expiration->0 as int) ==> {
                &&& r matches Ok(c)
                &&& c.access_key_id == resp.access_key_id->0
                &&& c.secret_access_key == resp.secret_access_key->0
                &&& c.session_token == resp.session_token->0
                &&& c.expires_at.nanos == resp.expiration->0
            }
        },
{
    let resp = match response {
        Some(resp) => resp,
        None => return Err(FetchError::MissingCredentials),
    };
    let RoleCredentialsResponse { access_key_id, secret_access_key, session_token, expiration } =
        resp;
    let access_key_id = match require_field(access_key_id, ResponseField::AccessKeyId) {
        Ok(s) => s,
        Err(e) => return Err(e),
    };
    let secret_access_key = match require_field(secret_access_key, ResponseField::SecretAccessKey) {
        Ok(s) => s,
        Err(e) => return Err(e),
    };
    let session_token = match require_field(session_token, ResponseField::SessionToken) {
        Ok(s) => s,
        Err(e) => return Err(e),
    };
    let expiration = match expiration {
        Some(n) => n,
        None => return Err(FetchError::MissingField { field: ResponseField::Expiration }),
    };
    if !nanos_representable(expiration) {
        return Err(FetchError::ExpirationOutOfRange);
    }
    Ok(
        SsoCredentials {
            access_key_id,
            secret_access_key,
            session_token,
            expires_at: Timestamp { nanos: expiration },
        },
    )
}

impl SsoCredentials {
    /// Overwrite the three secret strings, leaving each empty; the expiry is
    /// not secret and is kept. Secret material must not linger once the
    /// credentials are no longer needed.
    pub fn scrub(&mut self)
        ensures
            final(self).access_key_id@ == Seq::<char>::empty(),
            final(self).secret_access_key@ == Seq::<char>::empty(),
            final(self).session_token@ == Seq::<char>::empty(),
            final(self).expires_at == old(self).expires_at,
    {
        zeroize_string(&mut self.access_key_id);
        zeroize_string(&mut self.secret_access_key);
        zeroize_string(&mut self.session_token);
    }
}

} // verus!
