//! What the user configures: the credentials of each integration.

use vstd::prelude::*;
use crate::describe::Describe;
use crate::text::labelled;

verus! {

/// The configuration.
#[derive(Debug)]
pub struct Config {
    pub modules: ModulesConfig,
}

/// The configuration of each module.
#[derive(Debug)]
pub struct ModulesConfig {
    pub spotify: Option<SpotifyConfig>,
}

/// The credentials of the application at the provider.
#[derive(Debug)]
pub struct SpotifyConfig {
    pub client_id: String,
    pub client_secret: String,
}

/// Why the configuration could not be loaded.
#[derive(Debug)]
pub enum ConfigError {
    /// The file is no configuration; the text is the reader's message.
    FailedToParseToml(String),
}

impl Default for ModulesConfig {
    fn default() -> (r: Self)
        ensures
            r.spotify is None,
    {
        ModulesConfig { spotify: None }
    }
}

impl Default for Config {
    fn default() -> (r: Self)
        ensures
            r.modules.spotify is None,
    {
        Config { modules: ModulesConfig { spotify: None } }
    }
}

impl Config {
    /// The configuration that a run works with. `read` is what became of
    /// the file: `None` where it could not be read, which is no failure and
    /// gives the empty configuration; else what the reader made of its text.
    pub fn from_file(read: Option<Result<Config, String>>) -> (r: Result<Config, ConfigError>)
        ensures
            match read {
                Some(Ok(config)) => r == Ok::<Config, ConfigError>(config),
                Some(Err(message)) => r == Err::<Config, ConfigError>(
                    ConfigError::FailedToParseToml(message),
                ),
                None => r matches Ok(config) && config.modules.spotify is None,
            },
    {
        match read {
            Some(Ok(config)) => Ok(config),
            Some(Err(message)) => Err(ConfigError::FailedToParseToml(message)),
            None => Ok(Config::default()),
        }
    }
}

impl Describe for ConfigError {
    open spec fn text(&self) -> Seq<char> {
        match *self {
            ConfigError::FailedToParseToml(message) => "Failed to parse config file: "@
                + message@,
        }
    }

    fn to_string(&self) -> (r: String) {
        match self {
            ConfigError::FailedToParseToml(message) => labelled(
                "Failed to parse config file: ",
                message.as_str(),
            ),
        }
    }
}

} // verus!
