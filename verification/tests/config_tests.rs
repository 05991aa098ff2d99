use soroban_registry::api::config::{
    default_cache_url, validate_config, AppConfig, ConfigError, FeatureFlagEntry,
};

fn config(jwt_secret: &str, database_url: &str) -> AppConfig {
    AppConfig {
        database_url: database_url.to_string(),
        elasticsearch_url: "http://localhost:9200".to_string(),
        jwt_secret: jwt_secret.to_string(),
        port: 3001,
        host: "0.0.0.0".to_string(),
        log_level: "info".to_string(),
        redis_url: default_cache_url(),
        feature_flags_json: String::new(),
    }
}

const SECRET: &str = "0123456789abcdef0123456789abcdef";

#[test]
fn valid_configuration_is_accepted() {
    assert_eq!(validate_config(&config(SECRET, "postgres://u@h/db")), Ok(()));
    assert_eq!(validate_config(&config(SECRET, "postgresql://u@h/db")), Ok(()));
}

#[test]
fn short_secret_is_refused_first() {
    let err = validate_config(&config("short", "mysql://x")).unwrap_err();
    assert_eq!(err, ConfigError::JwtSecretTooShort);
    assert_eq!(err.message(), "JWT_SECRET must be at least 32 characters long for security");
    // the length is counted in bytes: 16 two-byte characters are enough
    assert_eq!(validate_config(&config(&"é".repeat(16), "postgres://h")), Ok(()));
    assert!(validate_config(&config(&"a".repeat(31), "postgres://h")).is_err());
}

#[test]
fn non_postgres_url_is_refused() {
    let err = validate_config(&config(SECRET, "mysql://u@h/db")).unwrap_err();
    assert_eq!(err, ConfigError::InvalidDatabaseUrl);
    assert_eq!(err.message(), "DATABASE_URL must be a valid postgres connection string");
    assert!(validate_config(&config(SECRET, "POSTGRES://h")).is_err());
}

#[test]
fn defaults() {
    assert_eq!(default_cache_url(), "redis://localhost:6379");
    let flag = FeatureFlagEntry::default();
    assert_eq!(flag.key, "");
    assert!(!flag.is_enabled);
    assert_eq!(flag.rollout_percentage, 0);
}
