use sso_env::credentials::SsoCredentials;
use sso_env::emit::{format_credentials, render_output};
use sso_env::timestamp::Timestamp;

fn sample_credentials() -> SsoCredentials {
    SsoCredentials {
        access_key_id: "AKIDEXAMPLE".to_string(),
        secret_access_key: "wJalrXUtnFEMI".to_string(),
        session_token: "AQoDYXdzEJr".to_string(),
        expires_at: Timestamp { nanos: 0 },
    }
}

#[test]
fn render_output_lays_out_the_four_lines() {
    let lines = render_output(&sample_credentials(), "2022-03-04T05:06:07Z");
    assert_eq!(lines.len(), 4);
    assert_eq!(lines[0], "# expires at 2022-03-04T05:06:07Z");
    assert_eq!(lines[1], "export AWS_ACCESS_KEY_ID=AKIDEXAMPLE");
    assert_eq!(lines[2], "export AWS_SECRET_ACCESS_KEY=wJalrXUtnFEMI");
    assert_eq!(lines[3], "export AWS_SESSION_TOKEN=AQoDYXdzEJr");
}

#[test]
fn format_credentials_encodes_the_epoch() {
    let lines = format_credentials(&sample_credentials(), Timestamp { nanos: 0 }).unwrap();
    assert_eq!(lines[0], "# expires at 1970-01-01T00:00:00Z");
    assert_eq!(lines.len(), 4);
}

#[test]
fn format_credentials_encodes_a_later_day() {
    let lines = format_credentials(
        &sample_credentials(),
        Timestamp { nanos: 86_400_000_000_000 },
    )
    .unwrap();
    assert_eq!(lines[0], "# expires at 1970-01-02T00:00:00Z");
}

#[test]
fn format_credentials_refuses_an_unencodable_instant() {
    let r = format_credentials(
        &sample_credentials(),
        Timestamp { nanos: 1_000_000_000_000_000_000_000_000_000_000 },
    );
    assert!(r.is_none());
}
