//! Structured logging of the backend services: the events that are logged, the
//! backtraces attached to errors, and the redaction of sensitive data.

use vstd::prelude::*;
use crate::json::JsonValue;
use crate::text::eq_str;
use crate::redaction::{
    SensitiveKeys, key_is_sensitive, redact_in_place, redacted, sanitized_copy, sensitive_under,
};

verus! {

#[verifier::external_type_specification]
#[verifier::external_body]
pub struct ExBacktrace(std::backtrace::Backtrace);

/// Calls `std::backtrace::Backtrace::capture`. Whether frames are captured depends
/// on the environment (`RUST_BACKTRACE`, `RUST_LIB_BACKTRACE`); nothing is promised.
#[verifier::external_body]
pub(crate) fn backtrace_capture() -> std::backtrace::Backtrace {
    std::backtrace::Backtrace::capture()
}

/// Calls `Backtrace::status` and tells whether it is `BacktraceStatus::Captured`.
#[verifier::external_body]
pub(crate) fn backtrace_is_captured(bt: &std::backtrace::Backtrace) -> bool {
    matches!(bt.status(), std::backtrace::BacktraceStatus::Captured)
}

/// Writes a backtrace with its alternate `Display` (`{:#}`); the text depends on
/// the stack and the machine, and nothing is promised of it.
#[verifier::external_body]
pub(crate) fn backtrace_text(bt: &std::backtrace::Backtrace) -> String {
    format!("{:#}", bt)
}

/// The severity of a log event.
#[derive(Debug, Clone, Copy, PartialEq, Eq, Structural)]
pub enum LogLevel {
    Error,
    Warn,
    Info,
    Debug,
}

/// A structured log event: its level and message, and the fields recorded with it.
/// A field that is `None` is not recorded.
#[derive(Debug)]
pub struct LogEvent {
    pub level: LogLevel,
    pub message: String,
    pub category: String,
    pub status: Option<u16>,
    pub request_id: Option<String>,
    pub backtrace: Option<String>,
}

/// The view of an optional owned string.
pub open spec fn opt_string_view(o: Option<String>) -> Option<Seq<char>> {
    match o {
        Some(s) => Some(s@),
        None => None,
    }
}

/// The view of an optional string slice.
pub open spec fn opt_str_view(o: Option<&str>) -> Option<Seq<char>> {
    match o {
        Some(s) => Some(s@),
        None => None,
    }
}

/// The event has the level, message, category and request id given.
pub open spec fn event_holds(
    e: LogEvent,
    level: LogLevel,
    message: Seq<char>,
    category: Seq<char>,
    request_id: Option<&str>,
) -> bool {
    &&& e.level == level
    &&& e.message@ == message
    &&& e.category@ == category
    &&& opt_string_view(e.request_id) == opt_str_view(request_id)
}

fn owned_opt(o: Option<&str>) -> (r: Option<String>)
    ensures
        opt_string_view(r) == opt_str_view(o),
{
    match o {
        Some(s) => Some(String::from_str(s)),
        None => None,
    }
}

/// The text recorded as an error's backtrace: the captured text, or `none`.
pub open spec fn backtrace_field_text(captured: Option<Seq<char>>) -> Seq<char> {
    match captured {
        Some(t) => t,
        None => "none"@,
    }
}

/// The text to record as an error's backtrace, from what a capture gave.
pub fn backtrace_field(captured: Option<String>) -> (r: String)
    ensures
        r@ == backtrace_field_text(opt_string_view(captured)),
{
    match captured {
        Some(text) => text,
        None => String::from_str("none"),
    }
}

/// Builds an event without status or backtrace.
pub(crate) fn plain_event(level: LogLevel, message: &str, category: &str, request_id: Option<&str>) -> (r: LogEvent)
    ensures
        event_holds(r, level, message@, category@, request_id),
        r.status is None,
        r.backtrace is None,
{
    LogEvent {
        level,
        message: String::from_str(message),
        category: String::from_str(category),
        status: None,
        request_id: owned_opt(request_id),
        backtrace: None,
    }
}

/// The error event for a message, given what a backtrace capture gave: its
/// category, status and request id, and the captured text (or `none`) as its backtrace.
pub fn error_event_from_capture(
    message: &str,
    category: &str,
    status: u16,
    request_id: Option<&str>,
    captured: Option<String>,
) -> (r: LogEvent)
    ensures
        event_holds(r, LogLevel::Error, message@, category@, request_id),
        r.status == Some(status),
        opt_string_view(r.backtrace) == Some(backtrace_field_text(opt_string_view(captured))),
{
    LogEvent {
        level: LogLevel::Error,
        message: String::from_str(message),
        category: String::from_str(category),
        status: Some(status),
        request_id: owned_opt(request_id),
        backtrace: Some(backtrace_field(captured)),
    }
}

/// Reads an on/off setting from the environment: `true` or `1` turn it on, any
/// other value turns it off, and an unset variable leaves it on.
pub fn env_flag_enabled(raw: Option<&str>) -> (r: bool)
    ensures
        r == match raw {
            Some(v) => v@ == "true"@ || v@ == "1"@,
            None => true,
        },
{
    match raw {
        Some(v) => eq_str(v, "true") || eq_str(v, "1"),
        None => true,
    }
}

/// The environment variables that logging is configured from, each as it was
/// read (`None` when unset).
#[derive(Debug)]
pub struct LogEnv {
    /// `OTEL_SERVICE_NAME`
    pub otel_service_name: Option<String>,
    /// `RUST_LOG`
    pub rust_log: Option<String>,
    /// `OTLP_ENDPOINT`
    pub otlp_endpoint: Option<String>,
    /// `OTEL_EXPORTER_OTLP_ENDPOINT`
    pub otel_exporter_otlp_endpoint: Option<String>,
    /// `JSON_LOG`
    pub json_log: Option<String>,
    /// `LOG_DIR`
    pub log_dir: Option<String>,
    /// `ENABLE_OTEL`
    pub enable_otel: Option<String>,
}

/// The logging settings of a service, but for the trace sampling rate.
#[derive(Debug)]
pub struct LogSettings {
    pub service_name: String,
    pub log_level: String,
    pub otlp_endpoint: Option<String>,
    pub json_output: bool,
    pub log_dir: Option<String>,
    pub enable_otel: bool,
}

/// The value set, or the default when unset.
pub open spec fn or_default(o: Option<Seq<char>>, fallback: Seq<char>) -> Seq<char> {
    match o {
        Some(v) => v,
        None => fallback,
    }
}

/// An on/off setting: on when unset, else on for `true` and `1` only.
pub open spec fn flag_value(o: Option<Seq<char>>) -> bool {
    match o {
        Some(v) => v == "true"@ || v == "1"@,
        None => true,
    }
}

/// The settings the environment gives: the service name falls back to
/// `fallback_service`, the level to `info`; the OTLP endpoint is `OTLP_ENDPOINT`,
/// else `OTEL_EXPORTER_OTLP_ENDPOINT`; JSON output and OpenTelemetry are on
/// unless switched off.
pub open spec fn settings_hold(r: LogSettings, env: LogEnv, fallback_service: Seq<char>) -> bool {
    &&& r.service_name@ == or_default(opt_string_view(env.otel_service_name), fallback_service)
    &&& r.log_level@ == or_default(opt_string_view(env.rust_log), "info"@)
    &&& opt_string_view(r.otlp_endpoint) == if env.otlp_endpoint is Some {
        opt_string_view(env.otlp_endpoint)
    } else {
        opt_string_view(env.otel_exporter_otlp_endpoint)
    }
    &&& r.json_output == flag_value(opt_string_view(env.json_log))
    &&& opt_string_view(r.log_dir) == opt_string_view(env.log_dir)
    &&& r.enable_otel == flag_value(opt_string_view(env.enable_otel))
}

/// The settings' on/off flags read the variables as `env_flag_enabled` does:
/// unset, `true` or `1` turn JSON output and OpenTelemetry on, any other value off.
pub proof fn law_settings_flags_read_true_or_one(r: LogSettings, env: LogEnv, fallback_service: Seq<char>)
    requires
        settings_hold(r, env, fallback_service),
    ensures
        r.json_output <==> (env.json_log is None || env.json_log->Some_0@ == "true"@
            || env.json_log->Some_0@ == "1"@),
        r.enable_otel <==> (env.enable_otel is None || env.enable_otel->Some_0@ == "true"@
            || env.enable_otel->Some_0@ == "1"@),
{
}

/// The service name is `OTEL_SERVICE_NAME` when set, else the fallback; the level
/// is `RUST_LOG` when set, else `info`; `OTLP_ENDPOINT` wins over
/// `OTEL_EXPORTER_OTLP_ENDPOINT`; the log directory is `LOG_DIR` as it is.
pub proof fn law_settings_values(r: LogSettings, env: LogEnv, fallback_service: Seq<char>)
    requires
        settings_hold(r, env, fallback_service),
    ensures
        env.otel_service_name matches Some(n) ==> r.service_name@ == n@,
        env.otel_service_name is None ==> r.service_name@ == fallback_service,
        env.rust_log matches Some(l) ==> r.log_level@ == l@,
        env.rust_log is None ==> r.log_level@ == "info"@,
        env.otlp_endpoint matches Some(e) ==> r.otlp_endpoint matches Some(x) && x@ == e@,
        env.otlp_endpoint is None ==> opt_string_view(r.otlp_endpoint) == opt_string_view(
            env.otel_exporter_otlp_endpoint,
        ),
        env.log_dir matches Some(d) ==> r.log_dir matches Some(x) && x@ == d@,
        env.log_dir is None ==> r.log_dir is None,
{
}

fn value_or(o: &Option<String>, fallback: &str) -> (r: String)
    ensures
        r@ == or_default(opt_string_view(*o), fallback@),
{
    match o {
        Some(v) => v.clone(),
        None => String::from_str(fallback),
    }
}

fn cloned_opt(o: &Option<String>) -> (r: Option<String>)
    ensures
        opt_string_view(r) == opt_string_view(*o),
{
    match o {
        Some(v) => Some(v.clone()),
        None => None,
    }
}

fn flag_of(o: &Option<String>) -> (r: bool)
    ensures
        r == flag_value(opt_string_view(*o)),
{
    match o {
        Some(v) => env_flag_enabled(Some(v.as_str())),
        None => env_flag_enabled(None),
    }
}

/// The logging settings of a service named `fallback_service` unless
/// `OTEL_SERVICE_NAME` says otherwise, read from the environment's values.
pub fn log_settings(env: &LogEnv, fallback_service: &str) -> (r: LogSettings)
    ensures
        settings_hold(r, *env, fallback_service@),
{
    let otlp_endpoint = match &env.otlp_endpoint {
        Some(v) => Some(v.clone()),
        None => cloned_opt(&env.otel_exporter_otlp_endpoint),
    };
    LogSettings {
        service_name: value_or(&env.otel_service_name, fallback_service),
        log_level: value_or(&env.rust_log, "info"),
        otlp_endpoint,
        json_output: flag_of(&env.json_log),
        log_dir: cloned_opt(&env.log_dir),
        enable_otel: flag_of(&env.enable_otel),
    }
}

/// The default logging settings: those of the service `soroban-registry-service`
/// unless `OTEL_SERVICE_NAME` says otherwise.
pub fn default_log_settings(env: &LogEnv) -> (r: LogSettings)
    ensures
        settings_hold(r, *env, "soroban-registry-service"@),
{
    log_settings(env, "soroban-registry-service")
}

/// How logging is set up for a service.
#[derive(Debug)]
pub struct LoggingPlan {
    /// Events are written as JSON lines (otherwise as plain text).
    pub json_output: bool,
    /// The directory and the file name of the daily rolling log file; none means
    /// events go to standard output.
    pub log_file: Option<(String, String)>,
    /// The endpoint traces are exported to over OTLP, if they are.
    pub otlp_endpoint: Option<String>,
}

/// Plans the logging of a service: events go to `<service_name>.log` in the log
/// directory when one is set, else to standard output; traces are exported only
/// when OpenTelemetry is enabled and an endpoint is configured.
pub fn logging_plan(
    service_name: &str,
    json_output: bool,
    log_dir: Option<&str>,
    enable_otel: bool,
    otlp_endpoint: Option<&str>,
) -> (r: LoggingPlan)
    ensures
        r.json_output == json_output,
        match log_dir {
            Some(d) => r.log_file matches Some(f) && f.0@ == d@ && f.1@ == service_name@ + ".log"@,
            None => r.log_file is None,
        },
        opt_string_view(r.otlp_endpoint) == if enable_otel {
            opt_str_view(otlp_endpoint)
        } else {
            None
        },
{
    let log_file = match log_dir {
        Some(d) => {
            let mut name = String::from_str(service_name);
            name.append(".log");
            Some((String::from_str(d), name))
        },
        None => None,
    };
    let otlp = if enable_otel {
        owned_opt(otlp_endpoint)
    } else {
        None
    };
    LoggingPlan { json_output, log_file, otlp_endpoint: otlp }
}

/// Captures a backtrace as formatted text, when the environment enables capturing.
pub fn capture_backtrace() -> Option<String> {
    let bt = backtrace_capture();
    if backtrace_is_captured(&bt) {
        Some(backtrace_text(&bt))
    } else {
        None
    }
}

/// Is `key` sensitive, so that its value must not be logged? It is when its ASCII
/// lowercase form contains `password`, `secret`, `token`, `api_key`,
/// `private_key`, `authorization`, `cookie`, `jwt`, `session`, `credit_card`,
/// `ssn`, `access_key`, `mnemonic` or `seed_phrase`.
pub fn is_sensitive_key(key: &str) -> (r: bool)
    ensures
        r == sensitive_under(SensitiveKeys::WithWalletSecrets, key@),
{
    key_is_sensitive(SensitiveKeys::WithWalletSecrets, key)
}

/// Replaces, at every depth of `value`, the value of each sensitive entry by `"[REDACTED]"`.
pub fn redact_sensitive_data(value: &mut JsonValue)
    ensures
        final(value)@ == redacted(old(value)@, SensitiveKeys::WithWalletSecrets),
{
    redact_in_place(value, SensitiveKeys::WithWalletSecrets)
}

/// A copy of `value` with every sensitive entry's value replaced by `"[REDACTED]"`.
pub fn sanitize_value(value: &JsonValue) -> (r: JsonValue)
    ensures
        r@ == redacted(value@, SensitiveKeys::WithWalletSecrets),
{
    sanitized_copy(value, SensitiveKeys::WithWalletSecrets)
}

/// The error event for a message: its category, status and request id, and the
/// backtrace that `capture_backtrace` gives now (or `none`), as
/// `error_event_from_capture` builds it.
pub fn log_error(message: &str, category: &str, status: u16, request_id: Option<&str>) -> (r: LogEvent)
    ensures
        event_holds(r, LogLevel::Error, message@, category@, request_id),
        r.status == Some(status),
        r.backtrace is Some,
{
    let captured = capture_backtrace();
    error_event_from_capture(message, category, status, request_id, captured)
}

/// The warning event for a message, with its category and request id.
pub fn log_warn(message: &str, category: &str, request_id: Option<&str>) -> (r: LogEvent)
    ensures
        event_holds(r, LogLevel::Warn, message@, category@, request_id),
        r.status is None,
        r.backtrace is None,
{
    plain_event(LogLevel::Warn, message, category, request_id)
}

/// The info event for a message, with its category and request id.
pub fn log_info(message: &str, category: &str, request_id: Option<&str>) -> (r: LogEvent)
    ensures
        event_holds(r, LogLevel::Info, message@, category@, request_id),
        r.status is None,
        r.backtrace is None,
{
    plain_event(LogLevel::Info, message, category, request_id)
}

/// The debug event for a message, with its category and request id.
pub fn log_debug(message: &str, category: &str, request_id: Option<&str>) -> (r: LogEvent)
    ensures
        event_holds(r, LogLevel::Debug, message@, category@, request_id),
        r.status is None,
        r.backtrace is None,
{
    plain_event(LogLevel::Debug, message, category, request_id)
}

} // verus!
