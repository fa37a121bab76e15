//! The instant model: nanoseconds since the Unix epoch, together with the
//! trusted conversions between instants and their RFC 3339 text form.

use vstd::prelude::*;

verus! {

/// A point in time, counted in nanoseconds since the Unix epoch.
///
/// This is the canonical timestamp representation of the library: a cached
/// token's expiry parses into it, the remote response's expiration converts
/// into it, and the expiry comparison is an integer comparison on it.
#[derive(Clone, Copy, Debug, PartialEq, Eq, Structural)]
pub struct Timestamp {
    /// Nanoseconds since 1970-01-01T00:00:00Z; negative values lie before it.
    pub nanos: i128,
}

/// The instant an RFC 3339 text denotes, in nanoseconds since the Unix epoch,
/// or `None` where the text is not well-formed RFC 3339.
pub uninterp spec fn rfc3339_nanos_of(s: Seq<char>) -> Option<int>;

/// The RFC 3339 text for an instant given in nanoseconds since the Unix epoch.
pub uninterp spec fn rfc3339_text_of(nanos: int) -> Seq<char>;

/// Whether an instant, in nanoseconds since the Unix epoch, lies in the range
/// the date-time library can represent.
pub uninterp spec fn representable_nanos(nanos: int) -> bool;

/// Whether an instant, in nanoseconds since the Unix epoch, can be written as
/// RFC 3339 text: representable, and within the year range the format can
/// carry.
pub uninterp spec fn rfc3339_encodable(nanos: int) -> bool;

/// Relies on `time::OffsetDateTime::parse` with the RFC 3339 well-known
/// description, and on `unix_timestamp_nanos`: whether the text parses, and
/// the instant it denotes, depend on the text alone.
#[verifier::external_body]
pub(crate) fn parse_rfc3339_nanos(s: &str) -> (r: Option<i128>)
    ensures
        r matches Some(n) ==> rfc3339_nanos_of(s@) == Some(n as int),
        r is None ==> rfc3339_nanos_of(s@) is None,
{
    match time::OffsetDateTime::parse(s, &time::format_description::well_known::Rfc3339) {
        Ok(t) => Some(t.unix_timestamp_nanos()),
        Err(_) => None,
    }
}

/// Relies on `time::OffsetDateTime::from_unix_timestamp_nanos` and on
/// formatting with the RFC 3339 well-known description: whether the instant
/// can be written, and the text, depend on the instant alone. `None` comes
/// exactly where the instant cannot be represented or lies outside the year
/// range RFC 3339 can carry.
#[verifier::external_body]
pub(crate) fn format_rfc3339_nanos(nanos: i128) -> (r: Option<String>)
    ensures
        r is Some <==> rfc3339_encodable(nanos as int),
        r matches Some(s) ==> s@ == rfc3339_text_of(nanos as int),
{
    match time::OffsetDateTime::from_unix_timestamp_nanos(nanos) {
        Ok(t) => t.format(&time::format_description::well_known::Rfc3339).ok(),
        Err(_) => None,
    }
}

/// Relies on `time::OffsetDateTime::from_unix_timestamp_nanos`: whether an
/// instant is representable depends on its value alone.
#[verifier::external_body]
pub(crate) fn nanos_representable(nanos: i128) -> (r: bool)
    ensures
        r == representable_nanos(nanos as int),
{
    time::OffsetDateTime::from_unix_timestamp_nanos(nanos).is_ok()
}

} // verus!
