//! Logging helpers of the API service: structured events, backtraces, and the
//! redaction of sensitive data (the standard list of sensitive keys).

use vstd::prelude::*;
use crate::json::JsonValue;
use crate::redaction::{SensitiveKeys, key_is_sensitive, redact_in_place, redacted, sanitized_copy, sensitive_under};
use crate::shared::logging::{
    LogEvent, LogLevel, backtrace_capture, backtrace_is_captured, backtrace_text, error_event_from_capture,
    event_holds, plain_event,
};

verus! {

/// The error event for a message: its category, status and request id, and the
/// backtrace that `capture_backtrace_string` gives now (or `none`), as
/// `error_event_from_capture` builds it.
pub fn log_error(message: &str, category: &str, status: u16, request_id: Option<&str>) -> (r: LogEvent)
    ensures
        event_holds(r, LogLevel::Error, message@, category@, request_id),
        r.status == Some(status),
        r.backtrace is Some,
{
    let captured = capture_backtrace_string();
    error_event_from_capture(message, category, status, request_id, captured)
}

/// The warning event for a message, with its category and request id.
pub fn log_warn(message: &str, category: &str, request_id: Option<&str>) -> (r: LogEvent)
    ensures
        event_holds(r, LogLevel::Warn, message@, category@, request_id),
        r.status is None,
        r.backtrace is None,
{
    plain_event(LogLevel::Warn, message, category, request_id)
}

/// The info event for a message, with its category and request id.
pub fn log_info(message: &str, category: &str, request_id: Option<&str>) -> (r: LogEvent)
    ensures
        event_holds(r, LogLevel::Info, message@, category@, request_id),
        r.status is None,
        r.backtrace is None,
{
    plain_event(LogLevel::Info, message, category, request_id)
}

/// The debug event for a message, with its category and request id.
pub fn log_debug(message: &str, category: &str, request_id: Option<&str>) -> (r: LogEvent)
    ensures
        event_holds(r, LogLevel::Debug, message@, category@, request_id),
        r.status is None,
        r.backtrace is None,
{
    plain_event(LogLevel::Debug, message, category, request_id)
}

/// Captures a full backtrace as formatted text, when the environment enables capturing.
pub fn capture_backtrace_string() -> Option<String> {
    let bt = backtrace_capture();
    if backtrace_is_captured(&bt) {
        Some(backtrace_text(&bt))
    } else {
        None
    }
}

/// Replaces, at every depth of `value`, the value of each sensitive entry by `"[REDACTED]"`.
pub fn redact_sensitive_data(value: &mut JsonValue)
    ensures
        final(value)@ == redacted(old(value)@, SensitiveKeys::Standard),
{
    redact_in_place(value, SensitiveKeys::Standard)
}

/// Is `key` sensitive? It is when its ASCII lowercase form contains `password`,
/// `secret`, `token`, `api_key`, `private_key`, `authorization`, `cookie`, `jwt`,
/// `session`, `credit_card`, `ssn` or `access_key`.
pub fn is_sensitive_key(key: &str) -> (r: bool)
    ensures
        r == sensitive_under(SensitiveKeys::Standard, key@),
{
    key_is_sensitive(SensitiveKeys::Standard, key)
}

/// A copy of `value` with every sensitive entry's value replaced by `"[REDACTED]"`;
/// `value` itself is left as it is.
pub fn sanitize_value(value: &JsonValue) -> (r: JsonValue)
    ensures
        r@ == redacted(value@, SensitiveKeys::Standard),
{
    sanitized_copy(value, SensitiveKeys::Standard)
}

} // verus!
