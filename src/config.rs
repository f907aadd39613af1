//! The stored configuration: the API token, and where its file lives.

use vstd::prelude::*;
use vstd::string::*;
use crate::error::NotionError;

verus! {

/// A file system path.
#[verifier::external_type_specification]
#[verifier::external_body]
pub struct ExPathBuf(std::path::PathBuf);

/// Relies on `dirs::config_dir`: the platform's configuration directory. It depends
/// on the platform and the environment, so nothing is promised of it.
#[verifier::external_body]
fn platform_config_dir() -> Option<std::path::PathBuf> {
    dirs::config_dir()
}

/// Relies on `Path::join`: `base` followed by the component `name`.
#[verifier::external_body]
fn join_path(base: &std::path::PathBuf, name: &str) -> std::path::PathBuf {
    base.join(name)
}

/// The directory under the configuration directory that holds this tool's files.
pub const APP_DIR: &'static str = "notion-cli";

/// The configuration file's name.
pub const CONFIG_FILE: &'static str = "config.toml";

/// The configuration: an API token, if one was given.
#[derive(Debug)]
pub struct Config {
    pub api_token: Option<String>,
}

impl Default for Config {
    /// A configuration without a token.
    fn default() -> (r: Config)
        ensures
            r.api_token is None,
    {
        Config { api_token: None }
    }
}

/// A token that is present and not empty.
pub open spec fn usable_token(t: Option<String>) -> bool {
    t matches Some(s) && s@.len() > 0
}

impl Config {
    /// The tool's configuration directory; an error when the platform has none.
    pub fn config_dir() -> (r: Result<std::path::PathBuf, NotionError>)
        ensures
            r is Ok || r matches Err(NotionError::NoConfigDir),
    {
        match platform_config_dir() {
            Some(base) => Ok(join_path(&base, APP_DIR)),
            None => Err(NotionError::NoConfigDir),
        }
    }

    /// The configuration file's path.
    pub fn config_path() -> (r: Result<std::path::PathBuf, NotionError>)
        ensures
            r is Ok || r matches Err(NotionError::NoConfigDir),
    {
        match Config::config_dir() {
            Ok(dir) => Ok(join_path(&dir, CONFIG_FILE)),
            Err(e) => Err(e),
        }
    }

    /// The configuration that a token from the environment gives: one only when
    /// the variable is set and not empty, which then takes precedence over the file.
    pub fn from_env(value: Option<String>) -> (r: Option<Config>)
        ensures
            usable_token(value) ==> (r matches Some(c) && c.api_token == value),
            !usable_token(value) ==> r is None,
    {
        match value {
            Some(t) => {
                if t.as_str().is_empty() {
                    None
                } else {
                    Some(Config { api_token: Some(t) })
                }
            },
            None => None,
        }
    }

    /// The configured token; an error when there is none or it is empty.
    pub fn get_token(&self) -> (r: Result<&str, NotionError>)
        ensures
            usable_token(self.api_token) ==> (r matches Ok(s) && s@ == self.api_token->0@),
            !usable_token(self.api_token) ==> (r matches Err(NotionError::MissingToken)),
    {
        match &self.api_token {
            Some(t) => {
                if t.as_str().is_empty() {
                    Err(NotionError::MissingToken)
                } else {
                    Ok(t.as_str())
                }
            },
            None => Err(NotionError::MissingToken),
        }
    }
}

} // verus!
