//! Runtime configuration and its validation.

use vstd::prelude::*;

verus! {

/// Immutable runtime configuration, loaded once at startup and shared
/// read-only for the lifetime of the process.
#[derive(Clone, Debug)]
pub struct Config {
    pub github_owner: String,
    pub github_repo: String,
    pub binary_name: String,
    pub database_url: String,
    pub update_interval_secs: u64,
}

/// Why configuration loading failed; each variant names the offending field.
#[derive(Clone, Copy, Debug, PartialEq, Eq, Structural)]
pub enum ConfigError {
    MissingGithubOwner,
    MissingGithubRepo,
    MissingBinaryName,
    MissingDatabaseUrl,
    MissingUpdateInterval,
    InvalidUpdateInterval,
}

impl Config {
    /// Validates the raw field values read from the environment.  Every
    /// field is required, and the update interval must be a positive
    /// number of seconds; the first missing or invalid field (in the
    /// declaration order) is reported.
    pub fn from_parts(
        github_owner: Option<String>,
        github_repo: Option<String>,
        binary_name: Option<String>,
        database_url: Option<String>,
        update_interval_secs: Option<u64>,
    ) -> (r: Result<Config, ConfigError>)
        ensures
            r is Ok <==> (github_owner is Some && github_repo is Some && binary_name is Some
                && database_url is Some && update_interval_secs is Some
                && update_interval_secs->0 > 0),
            r matches Ok(c) ==> c.github_owner == github_owner->0
                && c.github_repo == github_repo->0
                && c.binary_name == binary_name->0
                && c.database_url == database_url->0
                && c.update_interval_secs == update_interval_secs->0,
            github_owner is None ==> r == Err::<Config, ConfigError>(ConfigError::MissingGithubOwner),
            github_owner is Some && github_repo is None
                ==> r == Err::<Config, ConfigError>(ConfigError::MissingGithubRepo),
            github_owner is Some && github_repo is Some && binary_name is None
                ==> r == Err::<Config, ConfigError>(ConfigError::MissingBinaryName),
            github_owner is Some && github_repo is Some && binary_name is Some
                && database_url is None
                ==> r == Err::<Config, ConfigError>(ConfigError::MissingDatabaseUrl),
            github_owner is Some && github_repo is Some && binary_name is Some
                && database_url is Some && update_interval_secs is None
                ==> r == Err::<Config, ConfigError>(ConfigError::MissingUpdateInterval),
            github_owner is Some && github_repo is Some && binary_name is Some
                && database_url is Some && update_interval_secs == Some(0u64)
                ==> r == Err::<Config, ConfigError>(ConfigError::InvalidUpdateInterval),
    {
        let owner = match github_owner {
            Some(v) => v,
            None => {
                return Err(ConfigError::MissingGithubOwner);
            },
        };
        let repo = match github_repo {
            Some(v) => v,
            None => {
                return Err(ConfigError::MissingGithubRepo);
            },
        };
        let binary = match binary_name {
            Some(v) => v,
            None => {
                return Err(ConfigError::MissingBinaryName);
            },
        };
        let url = match database_url {
            Some(v) => v,
            None => {
                return Err(ConfigError::MissingDatabaseUrl);
            },
        };
        let interval = match update_interval_secs {
            Some(v) => v,
            None => {
                return Err(ConfigError::MissingUpdateInterval);
            },
        };
        if interval == 0 {
            return Err(ConfigError::InvalidUpdateInterval);
        }
        Ok(Config {
            github_owner: owner,
            github_repo: repo,
            binary_name: binary,
            database_url: url,
            update_interval_secs: interval,
        })
    }
}

/// Shortened form of the database URL, safe to print in diagnostics:
/// the first twenty characters followed by an ellipsis, or the whole
/// URL when it is no longer than that.
pub fn url_preview(url: &str) -> (p: String)
    ensures
        url@.len() > 20 ==> p@ == url@.subrange(0, 20) + "..."@,
        url@.len() <= 20 ==> p@ == url@,
{
    let n = url.unicode_len();
    if n > 20 {
        let head = url.substring_char(0, 20);
        String::from_str(head).concat("...")
    } else {
        String::from_str(url)
    }
}

} // verus!
