//! The rules a loaded configuration must satisfy, and the builder that says
//! where a configuration is to be loaded from.
//!
//! Discovering configuration files and merging them with environment
//! variables is I/O, done by the application; it hands the merged
//! configuration to [`validate_config`].
use vstd::prelude::*;
use crate::config::models::GlobalConfig;
use crate::error::TurboCdnError;
use crate::text::{concat3, owned, str_eq};
use crate::time::{duration_as_secs, whole_secs};

verus! {

/// Configuration change events
#[derive(Debug, Clone)]
pub enum ConfigEvent {
    Loaded,
    Reloaded,
    ValidationFailed(String),
}

/// The log levels a configuration may name.
pub open spec fn is_valid_log_level(level: Seq<char>) -> bool {
    level == "trace"@ || level == "debug"@ || level == "info"@ || level == "warn"@ || level == "error"@
}

/// The text of the error for an unknown log level.
pub open spec fn invalid_level_message(level: Seq<char>) -> Seq<char> {
    "Invalid log level: "@ + level + ". Must be one of: trace, debug, info, warn, error"@
}

/// The first rule a configuration breaks, as the message of its error, or
/// `None` when it satisfies every rule.
pub open spec fn config_violation(c: GlobalConfig) -> Option<Seq<char>> {
    if c.meta.version@.len() == 0 {
        Some("Configuration version cannot be empty"@)
    } else if c.meta.schema_version@.len() == 0 {
        Some("Configuration schema version cannot be empty"@)
    } else if whole_secs(c.general.config_check_interval) < 30 {
        Some("Config check interval must be at least 30 seconds"@)
    } else if c.regions.default@.len() == 0 {
        Some("Default region cannot be empty"@)
    } else if c.performance.max_concurrent_downloads == 0 {
        Some("Max concurrent downloads must be greater than 0"@)
    } else if c.performance.retry_attempts > 10 {
        Some("Retry attempts should not exceed 10"@)
    } else if c.security.allowed_protocols@.len() == 0 {
        Some("At least one protocol must be allowed"@)
    } else if c.security.user_agent@.len() == 0 {
        Some("User agent cannot be empty"@)
    } else if !is_valid_log_level(c.logging.level@) {
        Some(invalid_level_message(c.logging.level@))
    } else {
        None
    }
}

/// Whether `s` is empty.
fn is_empty_text(s: &String) -> (r: bool)
    ensures
        r == (s@.len() == 0),
{
    s.as_str().unicode_len() == 0
}

/// Validates a loaded configuration: the first rule it breaks is reported as
/// a configuration error.
pub fn validate_config(config: &GlobalConfig) -> (r: Result<(), TurboCdnError>)
    ensures
        r is Ok <==> config_violation(*config) is None,
        r matches Err(e) ==> (e matches TurboCdnError::Config { message }
            && config_violation(*config) == Some(message@)),
{
    if is_empty_text(&config.meta.version) {
        return Err(TurboCdnError::config("Configuration version cannot be empty"));
    }
    if is_empty_text(&config.meta.schema_version) {
        return Err(TurboCdnError::config("Configuration schema version cannot be empty"));
    }
    if duration_as_secs(&config.general.config_check_interval) < 30 {
        return Err(TurboCdnError::config("Config check interval must be at least 30 seconds"));
    }
    if is_empty_text(&config.regions.default) {
        return Err(TurboCdnError::config("Default region cannot be empty"));
    }
    if config.performance.max_concurrent_downloads == 0 {
        return Err(TurboCdnError::config("Max concurrent downloads must be greater than 0"));
    }
    if config.performance.retry_attempts > 10 {
        return Err(TurboCdnError::config("Retry attempts should not exceed 10"));
    }
    if config.security.allowed_protocols.len() == 0 {
        return Err(TurboCdnError::config("At least one protocol must be allowed"));
    }
    if is_empty_text(&config.security.user_agent) {
        return Err(TurboCdnError::config("User agent cannot be empty"));
    }
    let level = config.logging.level.as_str();
    let valid = str_eq(level, "trace") || str_eq(level, "debug") || str_eq(level, "info")
        || str_eq(level, "warn") || str_eq(level, "error");
    if !valid {
        let message = concat3(
            "Invalid log level: ",
            level,
            ". Must be one of: trace, debug, info, warn, error",
        );
        return Err(TurboCdnError::config(message.as_str()));
    }
    Ok(())
}

/// Configuration builder for advanced use cases
#[derive(Debug)]
pub struct ConfigBuilder {
    /// The configuration file to load, if one was named
    pub config_file: Option<String>,
    /// Whether environment variables are merged in
    pub enable_env_vars: bool,
}

impl ConfigBuilder {
    /// A builder that reads the default locations, with environment
    /// variables enabled.
    pub fn new() -> (b: ConfigBuilder)
        ensures
            b.config_file is None,
            b.enable_env_vars,
    {
        ConfigBuilder { config_file: None, enable_env_vars: true }
    }

    /// Names the configuration file to load.
    pub fn with_file(self, path: &str) -> (b: ConfigBuilder)
        ensures
            b.config_file matches Some(p) && p@ == path@,
            b.enable_env_vars == self.enable_env_vars,
    {
        ConfigBuilder { config_file: Some(owned(path)), enable_env_vars: self.enable_env_vars }
    }

    /// Switches the merging of environment variables on or off.
    pub fn with_env_vars(self, enabled: bool) -> (b: ConfigBuilder)
        ensures
            b.config_file == self.config_file,
            b.enable_env_vars == enabled,
    {
        ConfigBuilder { config_file: self.config_file, enable_env_vars: enabled }
    }
}

impl Default for ConfigBuilder {
    /// The all-off builder: no file, environment variables disabled.
    fn default() -> (b: ConfigBuilder)
        ensures
            b.config_file is None,
            !b.enable_env_vars,
    {
        ConfigBuilder { config_file: None, enable_env_vars: false }
    }
}

} // verus!
