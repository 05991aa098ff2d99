//! Configuration of the API service and its validation.

use vstd::prelude::*;
use vstd::utf8::encode_utf8;
use crate::text::starts_with_str;

verus! {

/// A feature flag: its key, whether it is on, and for what share of users (in percent).
#[derive(Debug, Clone)]
pub struct FeatureFlagEntry {
    pub key: String,
    pub is_enabled: bool,
    pub rollout_percentage: u8,
}

impl Default for FeatureFlagEntry {
    fn default() -> (r: Self)
        ensures
            r.key@ == Seq::<char>::empty(),
            !r.is_enabled,
            r.rollout_percentage == 0,
    {
        FeatureFlagEntry { key: String::new(), is_enabled: false, rollout_percentage: 0 }
    }
}

/// The API service's configuration, as read from the environment.
#[derive(Debug, Clone)]
pub struct AppConfig {
    pub database_url: String,
    pub elasticsearch_url: String,
    pub jwt_secret: String,
    pub port: u16,
    pub host: String,
    pub log_level: String,
    /// The cache's URL; `redis://localhost:6379` when not set.
    pub redis_url: String,
    /// JSON-encoded feature flags, e.g.
    /// `[{"key":"flag_name","is_enabled":true,"rollout_percentage":100}]`; empty when not set.
    pub feature_flags_json: String,
}

/// The cache URL used when none is configured.
pub fn default_cache_url() -> (r: String)
    ensures
        r@ == "redis://localhost:6379"@,
{
    String::from_str("redis://localhost:6379")
}

/// Why a configuration is refused.
#[derive(Debug, Clone, Copy, PartialEq, Eq, Structural)]
pub enum ConfigError {
    /// The JWT secret is shorter than 32 bytes.
    JwtSecretTooShort,
    /// The database URL is not a postgres connection string.
    InvalidDatabaseUrl,
}

/// The message of a refusal.
pub open spec fn config_error_message(e: ConfigError) -> Seq<char> {
    match e {
        ConfigError::JwtSecretTooShort => "JWT_SECRET must be at least 32 characters long for security"@,
        ConfigError::InvalidDatabaseUrl => "DATABASE_URL must be a valid postgres connection string"@,
    }
}

impl ConfigError {
    /// The message of the refusal.
    pub fn message(&self) -> (r: &'static str)
        ensures
            r@ == config_error_message(*self),
    {
        match self {
            ConfigError::JwtSecretTooShort => "JWT_SECRET must be at least 32 characters long for security",
            ConfigError::InvalidDatabaseUrl => "DATABASE_URL must be a valid postgres connection string",
        }
    }
}

/// The number of bytes of a string in UTF-8 (what `str::len` gives).
pub open spec fn utf8_len(s: Seq<char>) -> nat {
    encode_utf8(s).len()
}

/// What validating a configuration gives: the JWT secret must have at least 32
/// bytes, then the database URL must start with `postgres://` or `postgresql://`.
pub open spec fn config_check(jwt_secret: Seq<char>, database_url: Seq<char>) -> Result<(), ConfigError> {
    if utf8_len(jwt_secret) < 32 {
        Err(ConfigError::JwtSecretTooShort)
    } else if !("postgres://"@.is_prefix_of(database_url) || "postgresql://"@.is_prefix_of(
        database_url,
    )) {
        Err(ConfigError::InvalidDatabaseUrl)
    } else {
        Ok(())
    }
}

/// A JWT secret of at least 32 bytes with a database URL that starts with
/// `postgres://` or `postgresql://` is accepted, however long the secret is; a
/// shorter secret is refused as too short whatever the URL; a long enough secret
/// with any other URL is refused for the URL.
pub proof fn law_config_acceptance(jwt_secret: Seq<char>, database_url: Seq<char>)
    ensures
        utf8_len(jwt_secret) >= 32 && ("postgres://"@.is_prefix_of(database_url)
            || "postgresql://"@.is_prefix_of(database_url)) ==> config_check(jwt_secret, database_url)
            == Ok::<(), ConfigError>(()),
        utf8_len(jwt_secret) < 32 ==> config_check(jwt_secret, database_url) == Err::<(), ConfigError>(
            ConfigError::JwtSecretTooShort,
        ),
        utf8_len(jwt_secret) >= 32 && !"postgres://"@.is_prefix_of(database_url)
            && !"postgresql://"@.is_prefix_of(database_url) ==> config_check(jwt_secret, database_url)
            == Err::<(), ConfigError>(ConfigError::InvalidDatabaseUrl),
{
}

/// Lengthening the secret of an accepted configuration keeps it accepted.
pub proof fn law_longer_secret_stays_accepted(
    jwt_secret: Seq<char>,
    longer_secret: Seq<char>,
    database_url: Seq<char>,
)
    requires
        config_check(jwt_secret, database_url) is Ok,
        utf8_len(longer_secret) >= utf8_len(jwt_secret),
    ensures
        config_check(longer_secret, database_url) is Ok,
{
}

/// Checks a configuration before the service uses it.
pub fn validate_config(config: &AppConfig) -> (r: Result<(), ConfigError>)
    requires
        utf8_len(config.jwt_secret@) <= usize::MAX,
    ensures
        r == config_check(config.jwt_secret@, config.database_url@),
{
    if config.jwt_secret.as_str().len() < 32 {
        return Err(ConfigError::JwtSecretTooShort);
    }
    let url = config.database_url.as_str();
    if !starts_with_str(url, "postgres://") && !starts_with_str(url, "postgresql://") {
        return Err(ConfigError::InvalidDatabaseUrl);
    }
    Ok(())
}

} // verus!
