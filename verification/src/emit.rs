//! Formatting a credential record as shell-consumable export statements.

use vstd::prelude::*;

use crate::credentials::SsoCredentials;
use crate::timestamp::{format_rfc3339_nanos, rfc3339_encodable, rfc3339_text_of, Timestamp};

verus! {

/// The informational first line of the output, for a given expiry text.
pub open spec fn comment_line_spec(expiry_text: Seq<char>) -> Seq<char> {
    "# expires at "@ + expiry_text
}

/// The three export lines of the output, for given secret values.
pub open spec fn export_lines_spec(
    access_key_id: Seq<char>,
    secret_access_key: Seq<char>,
    session_token: Seq<char>,
) -> Seq<Seq<char>> {
    seq![
        "export AWS_ACCESS_KEY_ID="@ + access_key_id,
        "export AWS_SECRET_ACCESS_KEY="@ + secret_access_key,
        "export AWS_SESSION_TOKEN="@ + session_token,
    ]
}

/// The whole output, for a given expiry text and credential record: one
/// comment line stating the expiry, then the three export lines, in that
/// fixed order.
pub open spec fn output_lines_spec(expiry_text: Seq<char>, c: SsoCredentials) -> Seq<Seq<char>> {
    seq![comment_line_spec(expiry_text)] + export_lines_spec(
        c.access_key_id@,
        c.secret_access_key@,
        c.session_token@,
    )
}

/// Lay a credential record out as output lines, under an already-encoded
/// expiry text: the comment line stating the expiry, then one export line for
/// each of the three secret fields, bound to the three fixed, well-known
/// environment variable names, in that order. Pure: the caller decides where
/// the lines go.
pub fn render_output(credentials: &SsoCredentials, expiry_text: &str) -> (r: Vec<String>)
    ensures
        r@.len() == 4,
        r@[0]@ == comment_line_spec(expiry_text@),
        r@[1]@ == "export AWS_ACCESS_KEY_ID="@ + credentials.access_key_id@,
        r@[2]@ == "export AWS_SECRET_ACCESS_KEY="@ + credentials.secret_access_key@,
        r@[3]@ == "export AWS_SESSION_TOKEN="@ + credentials.session_token@,
        r@.map_values(|l: String| l@) == output_lines_spec(expiry_text@, *credentials),
{
    let mut comment = String::from_str("# expires at ");
    comment.append(expiry_text);
    let mut key_id = String::from_str("export AWS_ACCESS_KEY_ID=");
    key_id.append(credentials.access_key_id.as_str());
    let mut secret = String::from_str("export AWS_SECRET_ACCESS_KEY=");
    secret.append(credentials.secret_access_key.as_str());
    let mut session = String::from_str("export AWS_SESSION_TOKEN=");
    session.append(credentials.session_token.as_str());
    let mut lines: Vec<String> = Vec::new();
    lines.push(comment);
    lines.push(key_id);
    lines.push(secret);
    lines.push(session);
    proof {
        assert(lines@.map_values(|l: String| l@) =~= output_lines_spec(
            expiry_text@,
            *credentials,
        ));
    }
    lines
}

/// Format a credential record under a given expiry instant: the instant is
/// encoded as RFC 3339 and the lines are laid out by [`render_output`].
/// Returns `None` exactly where the instant cannot be encoded.
pub fn format_credentials(credentials: &SsoCredentials, expires_at: Timestamp) -> (r: Option<
    Vec<String>,
>)
    ensures
        r is None <==> !rfc3339_encodable(expires_at.nanos as int),
        r matches Some(lines) ==> lines@.map_values(|l: String| l@) == output_lines_spec(
            rfc3339_text_of(expires_at.nanos as int),
            *credentials,
        ),
{
    match format_rfc3339_nanos(expires_at.nanos) {
        Some(text) => Some(render_output(credentials, text.as_str())),
        None => None,
    }
}

} // verus!
