use soroban_registry::shared::error::{ErrorCategory, ErrorCode, RegistryError, RegistryErrorKind};
use soroban_registry::shared::logging::LogLevel;

#[test]
fn test_error_code_display() {
    assert_eq!(ErrorCode::BadRequest.as_str(), "BAD_REQUEST");
    assert_eq!(ErrorCode::InternalError.as_str(), "INTERNAL_ERROR");
    assert_eq!(ErrorCode::NotFound.to_string(), "NOT_FOUND");
}

#[test]
fn test_error_category_as_str() {
    assert_eq!(ErrorCategory::Database.as_str(), "database");
    assert_eq!(ErrorCategory::Internal.as_str(), "internal");
    assert_eq!(ErrorCategory::VerificationFailed.as_str(), "verification_failed");
}

#[test]
fn test_registry_error_creation() {
    let err = RegistryError::not_found("Contract not found");
    assert_eq!(err.category(), ErrorCategory::NotFound);
    assert_eq!(err.error_code(), ErrorCode::NotFound);
    assert!(err.to_string().contains("NOT_FOUND"));
}

#[test]
fn test_invalid_input_error() {
    let err = RegistryError::invalid_input("Empty source code");
    assert_eq!(err.category(), ErrorCategory::InvalidInput);
    assert_eq!(err.error_code(), ErrorCode::InvalidInput);
}

#[test]
fn test_internal_error_captures_backtrace() {
    let err = RegistryError::internal("Something went wrong");
    assert_eq!(err.category(), ErrorCategory::Internal);
    assert_eq!(err.error_code(), ErrorCode::InternalError);
}

#[test]
fn test_source_module() {
    let err = RegistryError::internal("test").with_source_module("verifier");
    assert_eq!(err.source_module(), Some("verifier"));
}

#[test]
fn test_error_display_format() {
    let err = RegistryError::not_found("missing resource");
    let display = err.to_string();
    assert!(display.contains("NOT_FOUND"));
    assert!(display.contains("not_found"));
    assert!(display.contains("missing resource"));
}

// ---------------------------------------------------------------------------
// Further cases
// ---------------------------------------------------------------------------

#[test]
fn every_category_maps_to_its_code() {
    let pairs = [
        (ErrorCategory::Database, ErrorCode::DatabaseError, "database"),
        (ErrorCategory::NotFound, ErrorCode::NotFound, "not_found"),
        (ErrorCategory::InvalidInput, ErrorCode::InvalidInput, "invalid_input"),
        (ErrorCategory::VerificationFailed, ErrorCode::VerificationFailed, "verification_failed"),
        (ErrorCategory::StellarRpc, ErrorCode::ExternalServiceError, "stellar_rpc"),
        (ErrorCategory::Internal, ErrorCode::InternalError, "internal"),
        (ErrorCategory::S3, ErrorCode::ExternalServiceError, "s3"),
        (ErrorCategory::Network, ErrorCode::NetworkError, "network"),
        (ErrorCategory::Authentication, ErrorCode::Unauthorized, "authentication"),
        (ErrorCategory::Conflict, ErrorCode::Conflict, "conflict"),
        (ErrorCategory::ExternalService, ErrorCode::ExternalServiceError, "external_service"),
        (ErrorCategory::RateLimit, ErrorCode::RateLimited, "rate_limit"),
        (ErrorCategory::Validation, ErrorCode::BadRequest, "validation"),
    ];
    for (category, code, name) in pairs {
        assert_eq!(RegistryError::category_to_code(category), code);
        assert_eq!(category.as_str(), name);
    }
}

#[test]
fn every_error_code_has_its_name() {
    let codes = [
        (ErrorCode::BadRequest, "BAD_REQUEST"),
        (ErrorCode::Unauthorized, "UNAUTHORIZED"),
        (ErrorCode::Forbidden, "FORBIDDEN"),
        (ErrorCode::NotFound, "NOT_FOUND"),
        (ErrorCode::Conflict, "CONFLICT"),
        (ErrorCode::UnprocessableEntity, "UNPROCESSABLE_ENTITY"),
        (ErrorCode::PayloadTooLarge, "PAYLOAD_TOO_LARGE"),
        (ErrorCode::RateLimited, "RATE_LIMITED"),
        (ErrorCode::InternalError, "INTERNAL_ERROR"),
        (ErrorCode::DatabaseError, "DATABASE_ERROR"),
        (ErrorCode::ServiceUnavailable, "SERVICE_UNAVAILABLE"),
        (ErrorCode::VerificationFailed, "VERIFICATION_FAILED"),
        (ErrorCode::InvalidInput, "INVALID_INPUT"),
        (ErrorCode::ExternalServiceError, "EXTERNAL_SERVICE_ERROR"),
        (ErrorCode::NetworkError, "NETWORK_ERROR"),
    ];
    for (code, name) in codes {
        assert_eq!(code.as_str(), name);
        assert_eq!(code.to_string(), name);
    }
}

#[test]
fn display_text_of_each_constructor() {
    assert_eq!(
        RegistryError::database("connection refused").to_string(),
        "[DATABASE_ERROR] database: Database error: connection refused"
    );
    assert_eq!(
        RegistryError::verification_failed("hash mismatch").to_string(),
        "[VERIFICATION_FAILED] verification_failed: Verification failed: hash mismatch"
    );
    assert_eq!(
        RegistryError::stellar_rpc("timeout").to_string(),
        "[EXTERNAL_SERVICE_ERROR] stellar_rpc: Stellar RPC error: timeout"
    );
    assert_eq!(
        RegistryError::s3("no bucket").to_string(),
        "[EXTERNAL_SERVICE_ERROR] s3: S3 error: no bucket"
    );
    assert_eq!(
        RegistryError::internal("boom").to_string(),
        "[INTERNAL_ERROR] internal: Internal error: boom"
    );
    assert_eq!(
        RegistryError::serialization("bad json").to_string(),
        "[INTERNAL_ERROR] internal: Serialization error: bad json"
    );
    assert_eq!(RegistryError::other("plain").to_string(), "[INTERNAL_ERROR] internal: plain");
    let io = RegistryError::io(std::io::Error::new(std::io::ErrorKind::Other, "disk full"));
    assert_eq!(io.to_string(), "[INTERNAL_ERROR] internal: IO error: disk full");
    assert_eq!(io.category(), ErrorCategory::Internal);
}

#[test]
fn context_event_by_kind() {
    let db = RegistryError::database("conn").with_source_module("indexer").log_with_context();
    assert_eq!(db.label, "database_error");
    assert_eq!(db.detail_name, "error");
    assert_eq!(db.detail, "conn");
    assert_eq!(db.source_module, "indexer");
    assert_eq!(db.category, "database");
    assert_eq!(db.error_code, "DATABASE_ERROR");

    let rpc = RegistryError::stellar_rpc("slow").log_with_context();
    assert_eq!(rpc.label, "stellar_rpc_error");
    assert_eq!(rpc.detail_name, "message");
    assert_eq!(rpc.detail, "slow");
    assert_eq!(rpc.source_module, "unknown");

    let other = RegistryError::not_found("gone").log_with_context();
    assert_eq!(other.label, "registry_error");
    assert_eq!(other.detail, "[NOT_FOUND] not_found: Not found: gone");
    assert!(!other.backtrace.is_empty());
    let _ = RegistryErrorKind::Anyhow;
}

#[test]
fn code_names_are_distinct() {
    let all = [
        ErrorCode::BadRequest,
        ErrorCode::Unauthorized,
        ErrorCode::Forbidden,
        ErrorCode::NotFound,
        ErrorCode::Conflict,
        ErrorCode::UnprocessableEntity,
        ErrorCode::PayloadTooLarge,
        ErrorCode::RateLimited,
        ErrorCode::InternalError,
        ErrorCode::DatabaseError,
        ErrorCode::ServiceUnavailable,
        ErrorCode::VerificationFailed,
        ErrorCode::InvalidInput,
        ErrorCode::ExternalServiceError,
        ErrorCode::NetworkError,
    ];
    for a in all {
        for b in all {
            assert_eq!(a.as_str() == b.as_str(), a == b);
        }
    }
}

#[test]
fn creation_events_of_each_kind() {
    let e = RegistryError::not_found("gone").creation_event();
    assert_eq!(e.level, LogLevel::Warn);
    assert_eq!(e.label, "resource_not_found");
    assert_eq!(e.category, "not_found");
    assert_eq!(e.error_code, "NOT_FOUND");
    assert_eq!(e.detail_name, "message");
    assert_eq!(e.detail, "gone");
    assert_eq!(e.backtrace, None);

    let e = RegistryError::invalid_input("bad").creation_event();
    assert_eq!((e.level, e.label.as_str(), e.category.as_str()), (LogLevel::Warn, "invalid_input", "invalid_input"));

    let e = RegistryError::database("conn refused").creation_event();
    assert_eq!((e.level, e.label.as_str(), e.category.as_str()), (LogLevel::Error, "database_error", "database"));
    assert_eq!((e.error_code.as_str(), e.detail_name.as_str(), e.detail.as_str()), ("DATABASE_ERROR", "error", "conn refused"));

    let e = RegistryError::verification_failed("mismatch").creation_event();
    assert_eq!((e.label.as_str(), e.category.as_str(), e.detail_name.as_str()), ("verification_failed", "verification_failed", "message"));

    let e = RegistryError::stellar_rpc("slow").creation_event();
    assert_eq!((e.label.as_str(), e.category.as_str(), e.error_code.as_str()), ("stellar_rpc_error", "stellar_rpc", "EXTERNAL_SERVICE_ERROR"));

    let e = RegistryError::s3("denied").creation_event();
    assert_eq!((e.label.as_str(), e.category.as_str(), e.detail.as_str()), ("s3_error", "s3", "denied"));

    let e = RegistryError::serialization("eof").creation_event();
    assert_eq!((e.label.as_str(), e.category.as_str(), e.detail_name.as_str()), ("json_error", "serialization", "error"));

    let e = RegistryError::io(std::io::Error::new(std::io::ErrorKind::Other, "disk")).creation_event();
    assert_eq!((e.label.as_str(), e.category.as_str(), e.detail.as_str()), ("io_error", "io", "disk"));
    assert_eq!(e.backtrace, None);

    let internal = RegistryError::internal("boom");
    let e = internal.creation_event();
    assert_eq!((e.level, e.label.as_str(), e.category.as_str()), (LogLevel::Error, "internal_error", "internal"));
    assert_eq!(e.detail_name, "message");
    assert_eq!(e.backtrace.as_deref(), Some(internal.backtrace().unwrap_or("none")));

    let other = RegistryError::other("wrapped");
    let e = other.creation_event();
    assert_eq!((e.label.as_str(), e.category.as_str(), e.detail_name.as_str()), ("anyhow_error", "internal", "error"));
    assert_eq!(e.backtrace.as_deref(), Some(other.backtrace().unwrap_or("none")));
}
