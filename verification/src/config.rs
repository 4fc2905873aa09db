//! Checking a host configuration before it is saved or tested, and the
//! status shown when no usable configuration could be loaded.

use vstd::prelude::*;
use vstd::string::*;
use crate::models::AppConfig;
use crate::text::{blank, is_blank, is_white_space, white_space};

verus! {

/// Why no usable configuration is at hand.
#[derive(Clone, Debug, PartialEq)]
pub enum ConfigError {
    /// There is no configuration file yet.
    NotFound,
    /// The configuration file could not be read.
    Read(String),
    /// The configuration file is not valid YAML of the expected shape.
    Parse(String),
    /// The configuration breaks a rule; the text says which.
    Invalid(String),
}

/// What a configuration error reads as.
pub open spec fn error_text(e: ConfigError) -> Seq<char> {
    match e {
        ConfigError::NotFound => "config.yml was not found"@,
        ConfigError::Read(m) => "failed to read config.yml: "@ + m@,
        ConfigError::Parse(m) => "failed to parse config.yml: "@ + m@,
        ConfigError::Invalid(m) => m@,
    }
}

impl ConfigError {
    /// The text that describes the error.
    pub fn message(&self) -> (s: String)
        ensures
            s@ == error_text(*self),
    {
        match self {
            ConfigError::NotFound => String::from_str("config.yml was not found"),
            ConfigError::Read(m) => String::from_str("failed to read config.yml: ").concat(m.as_str()),
            ConfigError::Parse(m) => String::from_str("failed to parse config.yml: ").concat(m.as_str()),
            ConfigError::Invalid(m) => m.clone(),
        }
    }
}

/// A host name as the configuration takes it: not blank, and free of white
/// space, slashes and colons (scheme, port and path are separate settings).
pub open spec fn bare_hostname(h: Seq<char>) -> bool {
    &&& !blank(h)
    &&& forall|i: int|
        0 <= i < h.len() ==> !is_white_space(#[trigger] h[i]) && h[i] != '/' && h[i] != ':'
}

/// The first rule that a configuration breaks, if any.
pub open spec fn config_problem(c: AppConfig) -> Option<Seq<char>> {
    if blank(c.host.name@) {
        Some("Host name must not be empty."@)
    } else if blank(c.host.hostname@) {
        Some("Hostname must not be empty."@)
    } else if !bare_hostname(c.host.hostname@) {
        Some("Hostname must not contain spaces, slashes or a port."@)
    } else if blank(c.auth.pat@) {
        Some("Personal access token must not be empty."@)
    } else {
        None
    }
}

fn is_bare_hostname(h: &str) -> (r: bool)
    ensures
        r == bare_hostname(h@),
{
    if is_blank(h) {
        return false;
    }
    let n = h.unicode_len();
    let mut i: usize = 0;
    while i < n
        invariant
            n == h@.len(),
            i <= n,
            forall|j: int| 0 <= j < i ==> !is_white_space(#[trigger] h@[j]) && h@[j] != '/' && h@[j] != ':',
        decreases n - i,
    {
        let c = h.get_char(i);
        if white_space(c) || c == '/' || c == ':' {
            return false;
        }
        i = i + 1;
    }
    true
}

/// Checks a configuration, handing it back when it breaks no rule.
pub fn validate_config(config: AppConfig) -> (r: Result<AppConfig, ConfigError>)
    ensures
        match config_problem(config) {
            None => r == Ok::<AppConfig, ConfigError>(config),
            Some(m) => r matches Err(ConfigError::Invalid(s)) && s@ == m,
        },
{
    if is_blank(config.host.name.as_str()) {
        Err(ConfigError::Invalid(String::from_str("Host name must not be empty.")))
    } else if is_blank(config.host.hostname.as_str()) {
        Err(ConfigError::Invalid(String::from_str("Hostname must not be empty.")))
    } else if !is_bare_hostname(config.host.hostname.as_str()) {
        Err(ConfigError::Invalid(String::from_str("Hostname must not contain spaces, slashes or a port.")))
    } else if is_blank(config.auth.pat.as_str()) {
        Err(ConfigError::Invalid(String::from_str("Personal access token must not be empty.")))
    } else {
        Ok(config)
    }
}

/// The status shown when no configuration could be loaded.
pub open spec fn first_run_text(e: ConfigError) -> Seq<char> {
    match e {
        ConfigError::NotFound => "First-run setup required. No config.yml exists yet."@,
        _ => "Setup required: "@ + error_text(e),
    }
}

/// The status shown when no configuration could be loaded.
pub fn first_run_status(error: &ConfigError) -> (s: String)
    ensures
        s@ == first_run_text(*error),
{
    match error {
        ConfigError::NotFound => String::from_str("First-run setup required. No config.yml exists yet."),
        _ => String::from_str("Setup required: ").concat(error.message().as_str()),
    }
}

} // verus!
