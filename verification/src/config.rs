//! Startup configuration, read once and passed explicitly from then on.

use vstd::prelude::*;

use vstd::string::StringExecFns;

verus! {

/// Why startup cannot proceed.
#[derive(Clone, Copy, Debug, PartialEq, Eq, Structural)]
pub enum ConfigError {
    MissingToken,
}

/// Everything the backup daemon runs with: the bearer token, the directory
/// under which one subdirectory per repository is kept, the seconds between
/// two passes, and the page size asked of the listing endpoint.
pub struct Config {
    pub token: String,
    pub backup_root: String,
    pub interval_secs: u64,
    pub page_size: u64,
}

impl Config {
    /// Builds the configuration from the token variable's value, if set.
    /// Without a token there is no valid operating mode, so `None` is
    /// fatal; every other field takes its fixed default.
    pub fn from_token(token: Option<String>) -> (r: Result<Config, ConfigError>)
        ensures
            token matches Some(t) ==> r matches Ok(c) && c.token@ == t@ && c.backup_root@
                == "./backup"@ && c.interval_secs == 86400 && c.page_size == 1000,
            token is None ==> r == Err::<Config, ConfigError>(ConfigError::MissingToken),
    {
        match token {
            Some(t) => Ok(
                Config {
                    token: t,
                    backup_root: "./backup".to_owned(),
                    interval_secs: 24 * 60 * 60,
                    page_size: 1000,
                },
            ),
            None => Err(ConfigError::MissingToken),
        }
    }
}

/// The startup diagnostic naming the missing environment variable.
pub fn missing_var_message(key: &str) -> (r: String)
    ensures
        r@ == key@ + " not set"@,
{
    key.to_owned().concat(" not set")
}

/// The per-repository progress line written as a sync starts.
pub fn sync_start_message(name: &str) -> (r: String)
    ensures
        r@ == "Start backup "@ + name@,
{
    "Start backup ".to_owned().concat(name)
}

} // verus!
