use soroban_registry::api::logging as api_logging;
use soroban_registry::json::JsonValue;
use soroban_registry::shared::logging::{self as shared_logging, LogLevel};

fn s(text: &str) -> JsonValue {
    JsonValue::String(text.to_string())
}

fn obj(entries: Vec<(&str, JsonValue)>) -> JsonValue {
    JsonValue::Object(entries.into_iter().map(|(k, v)| (k.to_string(), v)).collect())
}

fn credentials() -> JsonValue {
    obj(vec![
        ("nested", obj(vec![("api_key", s("key123")), ("normal_field", s("hello"))])),
        ("password", s("supersecret")),
        ("token", s("abc123")),
        ("username", s("alice")),
    ])
}

fn at<'a>(v: &'a JsonValue, key: &str) -> &'a JsonValue {
    v.get(key).unwrap()
}

#[test]
fn test_capture_backtrace_string() {
    let bt = api_logging::capture_backtrace_string();
    // May be None if RUST_BACKTRACE is not set, but should not panic
    if let Some(backtrace) = bt {
        assert!(backtrace.contains("capture_backtrace_string"));
    }
}

#[test]
fn test_capture_backtrace() {
    let bt = shared_logging::capture_backtrace();
    if let Some(backtrace) = bt {
        assert!(backtrace.contains("capture_backtrace"));
    }
}

#[test]
fn logging_test_redact_sensitive_data() {
    for redact in [api_logging::redact_sensitive_data, shared_logging::redact_sensitive_data] {
        let mut data = credentials();
        redact(&mut data);
        assert_eq!(at(&data, "password"), &s("[REDACTED]"));
        assert_eq!(at(&data, "token"), &s("[REDACTED]"));
        assert_eq!(at(at(&data, "nested"), "api_key"), &s("[REDACTED]"));
        assert_eq!(at(at(&data, "nested"), "normal_field"), &s("hello"));
        assert_eq!(at(&data, "username"), &s("alice"));
    }
}

#[test]
fn logging_test_sanitize_value_does_not_modify_original() {
    for sanitize in [api_logging::sanitize_value, shared_logging::sanitize_value] {
        let original = obj(vec![("password", s("secret123"))]);
        let sanitized = sanitize(&original);
        assert_eq!(at(&original, "password"), &s("secret123"));
        assert_eq!(at(&sanitized, "password"), &s("[REDACTED]"));
    }
}

#[test]
fn logging_test_is_sensitive_key() {
    for is_sensitive_key in [api_logging::is_sensitive_key, shared_logging::is_sensitive_key] {
        assert!(is_sensitive_key("password"));
        assert!(is_sensitive_key("PASSWORD"));
        assert!(is_sensitive_key("api_key"));
        assert!(is_sensitive_key("authorization"));
        assert!(is_sensitive_key("private_key"));
        assert!(is_sensitive_key("credit_card"));
        assert!(!is_sensitive_key("username"));
        assert!(!is_sensitive_key("email"));
        assert!(!is_sensitive_key("contract_id"));
    }
    assert!(shared_logging::is_sensitive_key("mnemonic"));
}

#[test]
fn test_log_functions_do_not_panic() {
    api_logging::log_error("test error", "test", 500, Some("req-1"));
    api_logging::log_warn("test warning", "test", Some("req-1"));
    api_logging::log_info("test info", "test", Some("req-1"));
    api_logging::log_debug("test debug", "test", Some("req-1"));
}

// ---------------------------------------------------------------------------
// Further cases
// ---------------------------------------------------------------------------

#[test]
fn wallet_secrets_are_sensitive_only_in_the_shared_list() {
    assert!(shared_logging::is_sensitive_key("Seed_Phrase"));
    assert!(shared_logging::is_sensitive_key("wallet_MNEMONIC"));
    assert!(!api_logging::is_sensitive_key("mnemonic"));
    assert!(!api_logging::is_sensitive_key("seed_phrase"));
    assert!(api_logging::is_sensitive_key("X-Session-Id"));
    assert!(api_logging::is_sensitive_key("user_ssn"));
    assert!(!api_logging::is_sensitive_key(""));
}

#[test]
fn redaction_inside_arrays_and_idempotence() {
    let data = JsonValue::Array(vec![
        obj(vec![("cookie", s("c")), ("id", s("1"))]),
        JsonValue::Array(vec![obj(vec![("jwt", JsonValue::Number("7".to_string()))])]),
        s("password"),
    ]);
    let once = shared_logging::sanitize_value(&data);
    let twice = shared_logging::sanitize_value(&once);
    assert_eq!(once, twice);
    let mut in_place = shared_logging::sanitize_value(&data);
    shared_logging::redact_sensitive_data(&mut in_place);
    assert_eq!(in_place, once);
    let expected = JsonValue::Array(vec![
        obj(vec![("cookie", s("[REDACTED]")), ("id", s("1"))]),
        JsonValue::Array(vec![obj(vec![("jwt", s("[REDACTED]"))])]),
        s("password"),
    ]);
    assert_eq!(once, expected);
}

#[test]
fn events_carry_their_fields() {
    let e = shared_logging::log_error("failed", "db", 503, None);
    assert_eq!(e.level, LogLevel::Error);
    assert_eq!(e.message, "failed");
    assert_eq!(e.category, "db");
    assert_eq!(e.status, Some(503));
    assert_eq!(e.request_id, None);
    assert!(e.backtrace.is_some());

    let w = shared_logging::log_warn("careful", "auth", Some("r-9"));
    assert_eq!(w.level, LogLevel::Warn);
    assert_eq!(w.request_id, Some("r-9".to_string()));
    assert_eq!(w.status, None);
    assert_eq!(w.backtrace, None);
    assert_eq!(shared_logging::log_info("i", "c", None).level, LogLevel::Info);
    assert_eq!(shared_logging::log_debug("d", "c", None).level, LogLevel::Debug);
    assert_eq!(api_logging::log_debug("d", "c", None).level, LogLevel::Debug);
}

#[test]
fn backtrace_field_is_text_or_none() {
    assert_eq!(shared_logging::backtrace_field(Some("frame 0".to_string())), "frame 0");
    assert_eq!(shared_logging::backtrace_field(None), "none");
}

#[test]
fn error_event_records_the_capture() {
    let e = shared_logging::error_event_from_capture("failed", "db", 500, Some("r1"), None);
    assert_eq!(e.level, LogLevel::Error);
    assert_eq!(e.message, "failed");
    assert_eq!(e.category, "db");
    assert_eq!(e.status, Some(500));
    assert_eq!(e.request_id.as_deref(), Some("r1"));
    assert_eq!(e.backtrace.as_deref(), Some("none"));
    let e = shared_logging::error_event_from_capture("failed", "db", 503, None, Some("at main".to_string()));
    assert_eq!(e.backtrace.as_deref(), Some("at main"));
    assert_eq!(e.request_id, None);
}

fn env(pairs: &[(&str, &str)]) -> shared_logging::LogEnv {
    let get = |name: &str| pairs.iter().find(|(k, _)| *k == name).map(|(_, v)| v.to_string());
    shared_logging::LogEnv {
        otel_service_name: get("OTEL_SERVICE_NAME"),
        rust_log: get("RUST_LOG"),
        otlp_endpoint: get("OTLP_ENDPOINT"),
        otel_exporter_otlp_endpoint: get("OTEL_EXPORTER_OTLP_ENDPOINT"),
        json_log: get("JSON_LOG"),
        log_dir: get("LOG_DIR"),
        enable_otel: get("ENABLE_OTEL"),
    }
}

#[test]
fn log_settings_defaults_and_overrides() {
    let d = shared_logging::default_log_settings(&env(&[]));
    assert_eq!(d.service_name, "soroban-registry-service");
    assert_eq!(d.log_level, "info");
    assert_eq!(d.otlp_endpoint, None);
    assert!(d.json_output);
    assert_eq!(d.log_dir, None);
    assert!(d.enable_otel);

    let s = shared_logging::log_settings(
        &env(&[
            ("RUST_LOG", "debug"),
            ("OTEL_EXPORTER_OTLP_ENDPOINT", "http://b:4317"),
            ("JSON_LOG", "false"),
            ("ENABLE_OTEL", "1"),
            ("LOG_DIR", "/var/log"),
        ]),
        "indexer",
    );
    assert_eq!(s.service_name, "indexer");
    assert_eq!(s.log_level, "debug");
    assert_eq!(s.otlp_endpoint.as_deref(), Some("http://b:4317"));
    assert!(!s.json_output);
    assert!(s.enable_otel);
    assert_eq!(s.log_dir.as_deref(), Some("/var/log"));

    let s = shared_logging::log_settings(
        &env(&[("OTEL_SERVICE_NAME", "api"), ("OTLP_ENDPOINT", "http://a:4317"), ("OTEL_EXPORTER_OTLP_ENDPOINT", "http://b:4317"), ("ENABLE_OTEL", "yes")]),
        "indexer",
    );
    assert_eq!(s.service_name, "api");
    assert_eq!(s.otlp_endpoint.as_deref(), Some("http://a:4317"));
    assert!(!s.enable_otel);
}
