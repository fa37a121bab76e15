//! The token cache: the cache file name derived from a profile's start URL,
//! the cached token read from that file's content, and the expiry check.

use vstd::prelude::*;

use crate::scrub::zeroize_string;
use crate::timestamp::{parse_rfc3339_nanos, rfc3339_nanos_of, Timestamp};

verus! {

/// A previously obtained, externally managed authentication token, as read
/// from the local token cache. The library never writes or refreshes it.
#[derive(Debug)]
pub struct CachedSsoToken {
    /// The opaque bearer string handed to the remote exchange.
    pub access_token: String,
    /// The token's expiry as RFC 3339 text, exactly as the cache file holds it.
    pub expires_at: String,
    /// The region the token was issued for.
    pub region: String,
    /// The identity provider's start URL the token belongs to.
    pub start_url: String,
}

/// The outcome of loading a cached token: the file may be missing (an expected
/// steady state before the first login), present but unreadable, or readable.
#[derive(Debug)]
pub enum TokenStatus {
    /// No cache file exists for the profile.
    Absent,
    /// The cache file exists but does not hold a well-formed token; `detail`
    /// carries the parser's account of what was wrong.
    Malformed { detail: String },
    /// The cache file holds a well-formed token.
    Valid { token: CachedSsoToken },
}

/// Whether a token's expiry has passed, measured against a given instant.
#[derive(Clone, Copy, Debug, PartialEq, Eq, Structural)]
pub enum ExpiryStatus {
    /// The expiry lies strictly in the future.
    Fresh,
    /// The expiry lies at or before the given instant.
    Expired,
}

/// The lowercase hex SHA-1 digest of a text's UTF-8 bytes.
pub uninterp spec fn sha1_hex_of(s: Seq<char>) -> Seq<char>;

/// The four string members `accessToken`, `expiresAt`, `region` and
/// `startUrl` of a JSON object, in that order, or `None` where the text is
/// not a JSON object carrying all four as strings.
pub uninterp spec fn token_json_of(s: Seq<char>) -> Option<(Seq<char>, Seq<char>, Seq<char>, Seq<char>)>;

/// Relies on `sha1::Sha1` (an update over the text's UTF-8 bytes, then the
/// digest written in hex): 40 lowercase hex digits that depend on the text
/// alone.
#[verifier::external_body]
fn sha1_hex(s: &str) -> (r: String)
    ensures
        r@ == sha1_hex_of(s@),
        r@.len() == 40,
{
    let mut hasher = sha1::Sha1::new();
    hasher.update(s.as_bytes());
    format!("{}", hasher.digest())
}

/// Relies on `serde_json`: whether the text is a JSON object carrying string
/// members `accessToken`, `expiresAt`, `region` and `startUrl`, and what those
/// four strings are, depend on the text alone. On failure the error's text is
/// passed through for diagnostics.
#[verifier::external_body]
fn parse_token_json(s: &str) -> (r: Result<CachedSsoToken, String>)
    ensures
        r matches Ok(t) ==> token_json_of(s@) == Some(
            (t.access_token@, t.expires_at@, t.region@, t.start_url@),
        ),
        r is Err ==> token_json_of(s@) is None,
{
    let v: serde_json::Value = serde_json::from_str(s).map_err(|e| format!("{}", e))?;
    let (a, x, r, u) = (v.get("accessToken"), v.get("expiresAt"), v.get("region"), v.get("startUrl"));
    match (a.and_then(|m| m.as_str()), x.and_then(|m| m.as_str()), r.and_then(|m| m.as_str()), u.and_then(|m| m.as_str())) {
        (Some(a), Some(x), Some(r), Some(u)) => Ok(CachedSsoToken {
            access_token: a.to_owned(),
            expires_at: x.to_owned(),
            region: r.to_owned(),
            start_url: u.to_owned(),
        }),
        _ => Err("missing or non-string token member".to_owned()),
    }
}

/// The cache file's name for a start URL: the lowercase hex SHA-1 digest of
/// the URL with a `.json` suffix.
pub open spec fn cache_file_name_spec(start_url: Seq<char>) -> Seq<char> {
    sha1_hex_of(start_url) + ".json"@
}

/// Derive the cache file name for a profile's start URL. The scheme is a
/// fixed external convention: the lowercase hex SHA-1 digest of the start
/// URL, followed by `.json`.
pub fn cache_file_name(start_url: &str) -> (r: String)
    ensures
        r@ == cache_file_name_spec(start_url@),
        r@.len() == 45,
{
    let mut name = sha1_hex(start_url);
    name.append(".json");
    proof {
        reveal_strlit(".json");
    }
    name
}

/// The cache file name is a function of the start URL alone: equal start URLs
/// always carry equal file names.
pub proof fn lemma_cache_file_name_deterministic(url1: Seq<char>, url2: Seq<char>)
    requires
        url1 == url2,
    ensures
        cache_file_name_spec(url1) == cache_file_name_spec(url2),
{
}

/// Interpret the content of the cache file, or its absence, as a token
/// status: no file is `Absent` (not an error), an unparsable file is
/// `Malformed` (reported, not escalated), and a parsable one is `Valid`.
pub fn load_token(content: Option<&str>) -> (r: TokenStatus)
    ensures
        content is None ==> r is Absent,
        content matches Some(s) ==> {
            &&& token_json_of(s@) is None ==> r is Malformed
            &&& token_json_of(s@) matches Some(fields) ==> {
                &&& r matches TokenStatus::Valid { token }
                &&& token.access_token@ == fields.0
                &&& token.expires_at@ == fields.1
                &&& token.region@ == fields.2
                &&& token.start_url@ == fields.3
            }
        },
{
    match content {
        None => TokenStatus::Absent,
        Some(s) => match parse_token_json(s) {
            Ok(token) => TokenStatus::Valid { token },
            Err(detail) => TokenStatus::Malformed { detail },
        },
    }
}

/// The expiry verdict for an expiry instant measured against a current
/// instant, both in nanoseconds since the Unix epoch: expired exactly when
/// the current instant has reached or passed the expiry.
pub open spec fn expiry_of(expires_at: int, now: int) -> ExpiryStatus {
    if now >= expires_at {
        ExpiryStatus::Expired
    } else {
        ExpiryStatus::Fresh
    }
}

/// Compare a token's expiry against the current instant. A tie counts as
/// expired: the check fails closed.
pub fn check_expiry(expires_at: Timestamp, now: Timestamp) -> (r: ExpiryStatus)
    ensures
        r == expiry_of(expires_at.nanos as int, now.nanos as int),
{
    if now.nanos >= expires_at.nanos {
        ExpiryStatus::Expired
    } else {
        ExpiryStatus::Fresh
    }
}

/// An expiry exactly equal to the current instant is already expired.
pub proof fn lemma_expiry_tie_fails_closed(instant: int)
    ensures
        expiry_of(instant, instant) == ExpiryStatus::Expired,
{
}

impl CachedSsoToken {
    /// The instant the token expires, where its `expires_at` text is
    /// well-formed RFC 3339; `None` where it is not, which makes the token
    /// unusable.
    pub fn expires_at(&self) -> (r: Option<Timestamp>)
        ensures
            r matches Some(t) ==> rfc3339_nanos_of(self.expires_at@) == Some(t.nanos as int),
            r is None ==> rfc3339_nanos_of(self.expires_at@) is None,
    {
        match parse_rfc3339_nanos(self.expires_at.as_str()) {
            Some(nanos) => Some(Timestamp { nanos }),
            None => None,
        }
    }

    /// Overwrite the token's fields, leaving each empty. Secret material must
    /// not linger once the token is no longer needed.
    pub fn scrub(&mut self)
        ensures
            final(self).access_token@ == Seq::<char>::empty(),
            final(self).expires_at@ == Seq::<char>::empty(),
            final(self).region@ == Seq::<char>::empty(),
            final(self).start_url@ == Seq::<char>::empty(),
    {
        zeroize_string(&mut self.access_token);
        zeroize_string(&mut self.expires_at);
        zeroize_string(&mut self.region);
        zeroize_string(&mut self.start_url);
    }
}

} // verus!
