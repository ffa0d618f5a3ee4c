//! What the gateway is started with: read once, never changed.

use vstd::prelude::*;

verus! {

/// The two values the gateway cannot start without.
#[derive(Clone, Debug, PartialEq, Eq)]
pub struct Config {
    /// Where accepted bodies are posted.
    pub downstream_url: String,
    /// The secret shared with the sender, which keys the signatures.
    pub secret: String,
}

/// Which required value is absent.
#[derive(Clone, Copy, Debug, PartialEq, Eq, Structural)]
pub enum ConfigError {
    MissingUrl,
    MissingSecret,
}

impl Config {
    /// Builds the configuration from the two values as they were found. Both
    /// are required; where both are absent the URL is named.
    pub fn new(downstream_url: Option<String>, secret: Option<String>) -> (result: Result<
        Config,
        ConfigError,
    >)
        ensures
            match (downstream_url, secret) {
                (Some(url), Some(key)) => result == Ok::<Config, ConfigError>(
                    (Config { downstream_url: url, secret: key }),
                ),
                (None, _) => result == Err::<Config, ConfigError>(ConfigError::MissingUrl),
                (Some(_), None) => result == Err::<Config, ConfigError>(
                    ConfigError::MissingSecret,
                ),
            },
    {
        match (downstream_url, secret) {
            (Some(url), Some(key)) => Ok(Config { downstream_url: url, secret: key }),
            (None, _) => Err(ConfigError::MissingUrl),
            (Some(_), None) => Err(ConfigError::MissingSecret),
        }
    }
}

} // verus!
