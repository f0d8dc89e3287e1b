//! What is read once at startup.

use vstd::prelude::*;

verus! {

/// The environment variable that holds the provider's API key.
pub const API_KEY_VARIABLE: &'static str = "ACCUWEATHER_API_KEY";

/// The location that is watched unless another one is configured.
pub const LOCATION_KEY: &'static str = "178086";

/// Why there is no configuration to run with.
#[derive(Debug, Clone, Copy, PartialEq, Eq, Structural)]
pub enum ConfigError {
    /// No API key was supplied.
    MissingApiKey,
}

/// What a [`Config`] says.
pub struct ConfigView {
    pub api_key: Seq<char>,
    pub location_key: Seq<char>,
}

/// What the notifier needs to know before it starts. It is read once and
/// does not change afterwards.
#[derive(Debug, PartialEq, Eq)]
pub struct Config {
    api_key: String,
    location_key: String,
}

impl Config {
    pub closed spec fn as_view(&self) -> ConfigView {
        ConfigView { api_key: self.api_key@, location_key: self.location_key@ }
    }

    /// The configuration for the given key and location.
    pub fn new(api_key: String, location_key: String) -> (config: Config)
        ensures
            config@ == (ConfigView { api_key: api_key@, location_key: location_key@ }),
    {
        Config { api_key, location_key }
    }

    /// The configuration for what was found at startup: the API key, if
    /// one was set, with the built-in location. Without a key there is no
    /// configuration, and so nothing to run.
    pub fn load(api_key: Option<String>) -> (loaded: Result<Config, ConfigError>)
        ensures
            match api_key {
                Some(key) => loaded matches Ok(config) && config@ == (ConfigView {
                    api_key: key@,
                    location_key: LOCATION_KEY@,
                }),
                None => loaded == Err::<Config, ConfigError>(ConfigError::MissingApiKey),
            },
    {
        match api_key {
            Some(key) => Ok(Config { api_key: key, location_key: String::from_str(LOCATION_KEY) }),
            None => Err(ConfigError::MissingApiKey),
        }
    }

    /// The provider's API key.
    pub fn api_key(&self) -> (key: &String)
        ensures
            key@ == self@.api_key,
    {
        &self.api_key
    }

    /// The provider's identifier of the watched location.
    pub fn location_key(&self) -> (key: &String)
        ensures
            key@ == self@.location_key,
    {
        &self.location_key
    }
}

impl View for Config {
    type V = ConfigView;

    open spec fn view(&self) -> ConfigView {
        self.as_view()
    }
}

} // verus!
