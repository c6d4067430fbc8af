use update_agent::config::{url_preview, Config, ConfigError};
use update_agent::engine::UpdateOutcome;
use update_agent::messages::{offline_message, outcome_message};

fn full_parts() -> (Option<String>, Option<String>, Option<String>, Option<String>, Option<u64>) {
    (
        Some("acme".to_string()),
        Some("tool".to_string()),
        Some("tool".to_string()),
        Some("postgres://user@host/db".to_string()),
        Some(5),
    )
}

#[test]
fn from_parts_accepts_a_full_configuration() {
    let (o, r, b, d, i) = full_parts();
    let cfg = Config::from_parts(o, r, b, d, i).unwrap();
    assert_eq!(cfg.github_owner, "acme");
    assert_eq!(cfg.github_repo, "tool");
    assert_eq!(cfg.binary_name, "tool");
    assert_eq!(cfg.database_url, "postgres://user@host/db");
    assert_eq!(cfg.update_interval_secs, 5);
}

#[test]
fn from_parts_reports_the_first_missing_field() {
    let (o, r, b, d, i) = full_parts();
    assert_eq!(
        Config::from_parts(None, r.clone(), b.clone(), d.clone(), i).unwrap_err(),
        ConfigError::MissingGithubOwner
    );
    assert_eq!(
        Config::from_parts(o.clone(), None, b.clone(), d.clone(), i).unwrap_err(),
        ConfigError::MissingGithubRepo
    );
    assert_eq!(
        Config::from_parts(o.clone(), r.clone(), None, d.clone(), i).unwrap_err(),
        ConfigError::MissingBinaryName
    );
    assert_eq!(
        Config::from_parts(o.clone(), r.clone(), b.clone(), None, i).unwrap_err(),
        ConfigError::MissingDatabaseUrl
    );
    assert_eq!(
        Config::from_parts(o, r, b, d, None).unwrap_err(),
        ConfigError::MissingUpdateInterval
    );
}

#[test]
fn from_parts_rejects_a_zero_interval() {
    let (o, r, b, d, _) = full_parts();
    assert_eq!(
        Config::from_parts(o, r, b, d, Some(0)).unwrap_err(),
        ConfigError::InvalidUpdateInterval
    );
}

#[test]
fn url_preview_truncates_long_urls() {
    assert_eq!(url_preview("postgres://user@host/database"), "postgres://user@host...");
    assert_eq!(url_preview("short://u"), "short://u");
    assert_eq!(url_preview(""), "");
}

#[test]
fn messages_have_their_exact_contents() {
    assert_eq!(
        outcome_message("tool", "1.0.0", &UpdateOutcome::Updated("1.2.0".to_string())),
        "Updated 'tool' from 1.0.0 to 1.2.0"
    );
    assert_eq!(
        outcome_message("tool", "1.0.0", &UpdateOutcome::NoChange),
        "No change: 'tool' is already at 1.0.0"
    );
    assert_eq!(
        outcome_message("tool", "1.0.0", &UpdateOutcome::Failed("release host unreachable".to_string())),
        "Update failed: release host unreachable"
    );
    assert_eq!(offline_message(), "No network access, caching logs locally");
}
