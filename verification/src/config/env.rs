//! The service's configuration, made from the values of its environment
//! variables.

use crate::text::{decimal_reading, parse_decimal, same_text};
use vstd::prelude::*;
use vstd::string::*;
use vstd::utf8::encode_utf8;

verus! {

/// The values of the environment variables that configure the service;
/// `None` for a variable that is not set.
#[derive(Clone, Debug)]
pub struct Environment {
    pub rust_env: Option<String>,
    pub host: Option<String>,
    pub port: Option<String>,
    pub mongodb_uri: Option<String>,
    pub pubg_api_key: Option<String>,
    pub pubg_api_base_url: Option<String>,
    pub cors_origin: Option<String>,
    pub rust_log: Option<String>,
}

#[derive(Clone, Debug)]
pub struct Config {
    pub rust_env: String,
    pub host: String,
    pub port: u16,
    pub mongodb_uri: String,
    pub pubg_api_key: String,
    pub pubg_api_base_url: String,
    pub cors_origin: String,
    pub rust_log: String,
}

/// Why no configuration could be made.
#[derive(Clone, Copy, Debug, PartialEq, Eq, Structural)]
pub enum ConfigError {
    /// `MONGODB_URI` is not set.
    MissingMongodbUri,
    /// `PUBG_API_KEY` is not set.
    MissingPubgApiKey,
}

/// The port that `text` names: an unsigned decimal number of 16 bits.
pub open spec fn port_of(text: Seq<char>) -> Option<nat> {
    decimal_reading(encode_utf8(text), u16::MAX as nat)
}

/// The value of a variable, or `fallback` if it is not set.
pub open spec fn value_or(value: Option<String>, fallback: Seq<char>) -> Seq<char> {
    match value {
        Some(text) => text@,
        None => fallback,
    }
}

fn or_default(value: Option<String>, fallback: &str) -> (text: String)
    ensures
        text@ == value_or(value, fallback@),
{
    match value {
        Some(text) => text,
        None => String::from_str(fallback),
    }
}

impl Config {
    /// Reads a port number.
    pub fn parse_port(text: &str) -> (port: Option<u16>)
        ensures
            match port {
                Some(p) => port_of(text@) == Some(p as nat),
                None => port_of(text@).is_none(),
            },
    {
        match parse_decimal(text.as_bytes(), 65535) {
            Some(p) => Some(p as u16),
            None => None,
        }
    }

    /// Makes the configuration from the environment. The database address
    /// and the API key must be set; everything else has a default. A port
    /// that is set must be a port number.
    pub fn from_env(env: Environment) -> (r: Result<Config, ConfigError>)
        requires
            env.port matches Some(text) ==> port_of(text@).is_some(),
        ensures
            match r {
                Ok(config) => {
                    &&& env.mongodb_uri matches Some(uri)
                    &&& env.pubg_api_key matches Some(key)
                    &&& config.rust_env@ == value_or(env.rust_env, "development"@)
                    &&& config.host@ == value_or(env.host, "0.0.0.0"@)
                    &&& Some(config.port as nat) == (match env.port {
                        Some(text) => port_of(text@),
                        None => Some(8080nat),
                    })
                    &&& config.mongodb_uri == uri
                    &&& config.pubg_api_key == key
                    &&& config.pubg_api_base_url@ == value_or(
                        env.pubg_api_base_url,
                        "https://api.pubg.com/shards"@,
                    )
                    &&& config.cors_origin@ == value_or(env.cors_origin, "*"@)
                    &&& config.rust_log@ == value_or(env.rust_log, "info"@)
                },
                Err(ConfigError::MissingMongodbUri) => env.mongodb_uri.is_none(),
                Err(ConfigError::MissingPubgApiKey) => env.mongodb_uri.is_some()
                    && env.pubg_api_key.is_none(),
            },
    {
        let rust_env = or_default(env.rust_env, "development");
        let host = or_default(env.host, "0.0.0.0");
        let port: u16 = match env.port {
            Some(text) => match Config::parse_port(text.as_str()) {
                Some(port) => port,
                None => 8080,
            },
            None => 8080,
        };
        let mongodb_uri = match env.mongodb_uri {
            Some(uri) => uri,
            None => {
                return Err(ConfigError::MissingMongodbUri);
            },
        };
        let pubg_api_key = match env.pubg_api_key {
            Some(key) => key,
            None => {
                return Err(ConfigError::MissingPubgApiKey);
            },
        };
        Ok(
            Config {
                rust_env,
                host,
                port,
                mongodb_uri,
                pubg_api_key,
                pubg_api_base_url: or_default(env.pubg_api_base_url, "https://api.pubg.com/shards"),
                cors_origin: or_default(env.cors_origin, "*"),
                rust_log: or_default(env.rust_log, "info"),
            },
        )
    }

    pub fn is_production(&self) -> (r: bool)
        ensures
            r == (self.rust_env@ == "production"@),
    {
        same_text(self.rust_env.as_str(), "production")
    }

    pub fn is_development(&self) -> (r: bool)
        ensures
            r == (self.rust_env@ == "development"@),
    {
        same_text(self.rust_env.as_str(), "development")
    }
}

} // verus!
