//! Error codes, categories and the registry's error type.

use vstd::prelude::*;
use crate::shared::logging::{LogLevel, capture_backtrace, opt_string_view};

verus! {

/// Standardized error codes for machine-readable error identification.
#[derive(Debug, Clone, Copy, PartialEq, Eq, Structural)]
pub enum ErrorCode {
    BadRequest,
    Unauthorized,
    Forbidden,
    NotFound,
    Conflict,
    UnprocessableEntity,
    PayloadTooLarge,
    RateLimited,
    InternalError,
    DatabaseError,
    ServiceUnavailable,
    VerificationFailed,
    InvalidInput,
    ExternalServiceError,
    NetworkError,
}

/// The machine-readable name of an error code (SCREAMING_SNAKE_CASE).
pub open spec fn code_name(c: ErrorCode) -> Seq<char> {
    match c {
        ErrorCode::BadRequest => "BAD_REQUEST"@,
        ErrorCode::Unauthorized => "UNAUTHORIZED"@,
        ErrorCode::Forbidden => "FORBIDDEN"@,
        ErrorCode::NotFound => "NOT_FOUND"@,
        ErrorCode::Conflict => "CONFLICT"@,
        ErrorCode::UnprocessableEntity => "UNPROCESSABLE_ENTITY"@,
        ErrorCode::PayloadTooLarge => "PAYLOAD_TOO_LARGE"@,
        ErrorCode::RateLimited => "RATE_LIMITED"@,
        ErrorCode::InternalError => "INTERNAL_ERROR"@,
        ErrorCode::DatabaseError => "DATABASE_ERROR"@,
        ErrorCode::ServiceUnavailable => "SERVICE_UNAVAILABLE"@,
        ErrorCode::VerificationFailed => "VERIFICATION_FAILED"@,
        ErrorCode::InvalidInput => "INVALID_INPUT"@,
        ErrorCode::ExternalServiceError => "EXTERNAL_SERVICE_ERROR"@,
        ErrorCode::NetworkError => "NETWORK_ERROR"@,
    }
}

impl ErrorCode {
    /// The code's machine-readable name.
    pub fn as_str(&self) -> (r: &'static str)
        ensures
            r@ == code_name(*self),
    {
        match self {
            ErrorCode::BadRequest => "BAD_REQUEST",
            ErrorCode::Unauthorized => "UNAUTHORIZED",
            ErrorCode::Forbidden => "FORBIDDEN",
            ErrorCode::NotFound => "NOT_FOUND",
            ErrorCode::Conflict => "CONFLICT",
            ErrorCode::UnprocessableEntity => "UNPROCESSABLE_ENTITY",
            ErrorCode::PayloadTooLarge => "PAYLOAD_TOO_LARGE",
            ErrorCode::RateLimited => "RATE_LIMITED",
            ErrorCode::InternalError => "INTERNAL_ERROR",
            ErrorCode::DatabaseError => "DATABASE_ERROR",
            ErrorCode::ServiceUnavailable => "SERVICE_UNAVAILABLE",
            ErrorCode::VerificationFailed => "VERIFICATION_FAILED",
            ErrorCode::InvalidInput => "INVALID_INPUT",
            ErrorCode::ExternalServiceError => "EXTERNAL_SERVICE_ERROR",
            ErrorCode::NetworkError => "NETWORK_ERROR",
        }
    }

    /// The code as it is displayed: its name.
    pub fn to_string(&self) -> (r: String)
        ensures
            r@ == code_name(*self),
    {
        String::from_str(self.as_str())
    }
}

/// No two error codes share a name: a code's machine-readable name identifies it.
pub proof fn law_code_names_distinct(c1: ErrorCode, c2: ErrorCode)
    ensures
        code_name(c1) == code_name(c2) <==> c1 == c2,
{
    reveal_strlit("BAD_REQUEST");
    reveal_strlit("UNAUTHORIZED");
    reveal_strlit("FORBIDDEN");
    reveal_strlit("NOT_FOUND");
    reveal_strlit("CONFLICT");
    reveal_strlit("UNPROCESSABLE_ENTITY");
    reveal_strlit("PAYLOAD_TOO_LARGE");
    reveal_strlit("RATE_LIMITED");
    reveal_strlit("INTERNAL_ERROR");
    reveal_strlit("DATABASE_ERROR");
    reveal_strlit("SERVICE_UNAVAILABLE");
    reveal_strlit("VERIFICATION_FAILED");
    reveal_strlit("INVALID_INPUT");
    reveal_strlit("EXTERNAL_SERVICE_ERROR");
    reveal_strlit("NETWORK_ERROR");
    let a = code_name(c1);
    let b = code_name(c2);
    if a == b {
        assert(a.len() == b.len() && a[0] == b[0]);
    }
}

/// Categorization of registry errors for monitoring and analysis.
#[derive(Debug, Clone, Copy, PartialEq, Eq, Structural)]
pub enum ErrorCategory {
    Database,
    NotFound,
    InvalidInput,
    VerificationFailed,
    StellarRpc,
    Internal,
    S3,
    Network,
    Authentication,
    Conflict,
    ExternalService,
    RateLimit,
    Validation,
}

/// The name of a category (snake_case).
pub open spec fn category_name(c: ErrorCategory) -> Seq<char> {
    match c {
        ErrorCategory::Database => "database"@,
        ErrorCategory::NotFound => "not_found"@,
        ErrorCategory::InvalidInput => "invalid_input"@,
        ErrorCategory::VerificationFailed => "verification_failed"@,
        ErrorCategory::StellarRpc => "stellar_rpc"@,
        ErrorCategory::Internal => "internal"@,
        ErrorCategory::S3 => "s3"@,
        ErrorCategory::Network => "network"@,
        ErrorCategory::Authentication => "authentication"@,
        ErrorCategory::Conflict => "conflict"@,
        ErrorCategory::ExternalService => "external_service"@,
        ErrorCategory::RateLimit => "rate_limit"@,
        ErrorCategory::Validation => "validation"@,
    }
}

impl ErrorCategory {
    /// The category's name.
    pub fn as_str(&self) -> (r: &'static str)
        ensures
            r@ == category_name(*self),
    {
        match self {
            ErrorCategory::Database => "database",
            ErrorCategory::NotFound => "not_found",
            ErrorCategory::InvalidInput => "invalid_input",
            ErrorCategory::VerificationFailed => "verification_failed",
            ErrorCategory::StellarRpc => "stellar_rpc",
            ErrorCategory::Internal => "internal",
            ErrorCategory::S3 => "s3",
            ErrorCategory::Network => "network",
            ErrorCategory::Authentication => "authentication",
            ErrorCategory::Conflict => "conflict",
            ErrorCategory::ExternalService => "external_service",
            ErrorCategory::RateLimit => "rate_limit",
            ErrorCategory::Validation => "validation",
        }
    }
}

/// The error code that goes with a category.
pub open spec fn code_for(category: ErrorCategory) -> ErrorCode {
    match category {
        ErrorCategory::Database => ErrorCode::DatabaseError,
        ErrorCategory::NotFound => ErrorCode::NotFound,
        ErrorCategory::InvalidInput => ErrorCode::InvalidInput,
        ErrorCategory::VerificationFailed => ErrorCode::VerificationFailed,
        ErrorCategory::StellarRpc => ErrorCode::ExternalServiceError,
        ErrorCategory::Internal => ErrorCode::InternalError,
        ErrorCategory::S3 => ErrorCode::ExternalServiceError,
        ErrorCategory::Network => ErrorCode::NetworkError,
        ErrorCategory::Authentication => ErrorCode::Unauthorized,
        ErrorCategory::Conflict => ErrorCode::Conflict,
        ErrorCategory::ExternalService => ErrorCode::ExternalServiceError,
        ErrorCategory::RateLimit => ErrorCode::RateLimited,
        ErrorCategory::Validation => ErrorCode::BadRequest,
    }
}

/// What went wrong, by the source it came from.
#[derive(Debug, Clone, Copy, PartialEq, Eq, Structural)]
pub enum RegistryErrorKind {
    Database,
    NotFound,
    InvalidInput,
    VerificationFailed,
    StellarRpc,
    Internal,
    S3,
    Io,
    Serde,
    Anyhow,
}

/// How a kind introduces its message when the error is displayed.
pub open spec fn kind_prefix(k: RegistryErrorKind) -> Seq<char> {
    match k {
        RegistryErrorKind::Database => "Database error: "@,
        RegistryErrorKind::NotFound => "Not found: "@,
        RegistryErrorKind::InvalidInput => "Invalid input: "@,
        RegistryErrorKind::VerificationFailed => "Verification failed: "@,
        RegistryErrorKind::StellarRpc => "Stellar RPC error: "@,
        RegistryErrorKind::Internal => "Internal error: "@,
        RegistryErrorKind::S3 => "S3 error: "@,
        RegistryErrorKind::Io => "IO error: "@,
        RegistryErrorKind::Serde => "Serialization error: "@,
        RegistryErrorKind::Anyhow => Seq::empty(),
    }
}

/// The model of a [`RegistryError`].
pub struct RegistryErrorModel {
    pub kind: RegistryErrorKind,
    /// The message of the error, or the text of the error it was made from.
    pub message: Seq<char>,
    pub backtrace: Option<Seq<char>>,
    pub category: ErrorCategory,
    pub error_code: ErrorCode,
    pub source_module: Option<Seq<char>>,
}

/// A registry error: its kind and message, its category and code, the backtrace
/// captured when it was made (if any) and the module it came from (if set).
#[derive(Debug)]
pub struct RegistryError {
    kind: RegistryErrorKind,
    message: String,
    backtrace: Option<String>,
    category: ErrorCategory,
    error_code: ErrorCode,
    source_module: Option<String>,
}

impl View for RegistryError {
    type V = RegistryErrorModel;

    closed spec fn view(&self) -> RegistryErrorModel {
        RegistryErrorModel {
            kind: self.kind,
            message: self.message@,
            backtrace: opt_string_view(self.backtrace),
            category: self.category,
            error_code: self.error_code,
            source_module: opt_string_view(self.source_module),
        }
    }
}

/// A freshly made error: of `kind` with `message`, in `category`, with `code`,
/// and no source module.
pub open spec fn made(e: RegistryErrorModel, kind: RegistryErrorKind, message: Seq<char>, category: ErrorCategory, code: ErrorCode) -> bool {
    &&& e.kind == kind
    &&& e.message == message
    &&& e.category == category
    &&& e.error_code == code
    &&& e.source_module is None
}

/// The text of an error as it is displayed: `[CODE] category: <kind prefix><message>`.
pub open spec fn error_text(e: RegistryErrorModel) -> Seq<char> {
    "["@ + code_name(e.error_code) + "] "@ + category_name(e.category) + ": "@ + kind_prefix(e.kind)
        + e.message
}

#[verifier::external_type_specification]
#[verifier::external_body]
pub struct ExIoError(std::io::Error);

/// Writes an I/O error with its `Display`; the text may come from the operating
/// system, and nothing is promised of it.
#[verifier::external_body]
fn io_error_text(err: &std::io::Error) -> String {
    err.to_string()
}

/// The event's message when an error of this kind is made.
pub open spec fn creation_label(k: RegistryErrorKind) -> Seq<char> {
    match k {
        RegistryErrorKind::Database => "database_error"@,
        RegistryErrorKind::NotFound => "resource_not_found"@,
        RegistryErrorKind::InvalidInput => "invalid_input"@,
        RegistryErrorKind::VerificationFailed => "verification_failed"@,
        RegistryErrorKind::StellarRpc => "stellar_rpc_error"@,
        RegistryErrorKind::Internal => "internal_error"@,
        RegistryErrorKind::S3 => "s3_error"@,
        RegistryErrorKind::Io => "io_error"@,
        RegistryErrorKind::Serde => "json_error"@,
        RegistryErrorKind::Anyhow => "anyhow_error"@,
    }
}

/// The category recorded when an error of this kind is made.
pub open spec fn creation_category(k: RegistryErrorKind) -> Seq<char> {
    match k {
        RegistryErrorKind::Database => "database"@,
        RegistryErrorKind::NotFound => "not_found"@,
        RegistryErrorKind::InvalidInput => "invalid_input"@,
        RegistryErrorKind::VerificationFailed => "verification_failed"@,
        RegistryErrorKind::StellarRpc => "stellar_rpc"@,
        RegistryErrorKind::Internal => "internal"@,
        RegistryErrorKind::S3 => "s3"@,
        RegistryErrorKind::Io => "io"@,
        RegistryErrorKind::Serde => "serialization"@,
        RegistryErrorKind::Anyhow => "internal"@,
    }
}

/// A missing resource or invalid input is logged as a warning when made, any
/// other kind as an error.
pub open spec fn creation_level(k: RegistryErrorKind) -> LogLevel {
    match k {
        RegistryErrorKind::NotFound | RegistryErrorKind::InvalidInput => LogLevel::Warn,
        _ => LogLevel::Error,
    }
}

/// The name of the field that holds the error's message when it is made: `error`
/// for an error made from another error's text, `message` otherwise.
pub open spec fn creation_detail_name(k: RegistryErrorKind) -> Seq<char> {
    match k {
        RegistryErrorKind::Database | RegistryErrorKind::Io | RegistryErrorKind::Serde
        | RegistryErrorKind::Anyhow => "error"@,
        _ => "message"@,
    }
}

/// The backtrace recorded when an error is made: for an internal error and one
/// made from any other error, the captured backtrace or `none`; nothing otherwise.
pub open spec fn creation_backtrace(e: RegistryErrorModel) -> Option<Seq<char>> {
    match e.kind {
        RegistryErrorKind::Internal | RegistryErrorKind::Anyhow => Some(
            match e.backtrace {
                Some(b) => b,
                None => "none"@,
            },
        ),
        _ => None,
    }
}

/// The fields of the event that is logged when a registry error is made.
#[derive(Debug)]
pub struct CreationEvent {
    pub level: LogLevel,
    /// The event's message, such as `resource_not_found`.
    pub label: String,
    pub category: String,
    pub error_code: String,
    /// The name of the detail field: `error` or `message`.
    pub detail_name: String,
    pub detail: String,
    /// The backtrace (or `none`), recorded for internal errors only.
    pub backtrace: Option<String>,
}

/// The fields of the event that logs a registry error with its context.
#[derive(Debug)]
pub struct ErrorContextEvent {
    /// The event's message: `database_error`, `stellar_rpc_error` or `registry_error`.
    pub label: String,
    pub category: String,
    pub error_code: String,
    /// The name of the detail field: `error`, or `message` for a Stellar RPC error.
    pub detail_name: String,
    pub detail: String,
    /// The backtrace, or `none`.
    pub backtrace: String,
    /// The source module, or `unknown`.
    pub source_module: String,
}

impl RegistryError {
    /// Every error carries the code that goes with its category.
    #[verifier::type_invariant]
    spec fn code_follows_category(self) -> bool {
        self.error_code == code_for(self.category)
    }

    /// The error code that goes with a category.
    pub fn category_to_code(category: ErrorCategory) -> (r: ErrorCode)
        ensures
            r == code_for(category),
    {
        match category {
            ErrorCategory::Database => ErrorCode::DatabaseError,
            ErrorCategory::NotFound => ErrorCode::NotFound,
            ErrorCategory::InvalidInput => ErrorCode::InvalidInput,
            ErrorCategory::VerificationFailed => ErrorCode::VerificationFailed,
            ErrorCategory::StellarRpc => ErrorCode::ExternalServiceError,
            ErrorCategory::Internal => ErrorCode::InternalError,
            ErrorCategory::S3 => ErrorCode::ExternalServiceError,
            ErrorCategory::Network => ErrorCode::NetworkError,
            ErrorCategory::Authentication => ErrorCode::Unauthorized,
            ErrorCategory::Conflict => ErrorCode::Conflict,
            ErrorCategory::ExternalService => ErrorCode::ExternalServiceError,
            ErrorCategory::RateLimit => ErrorCode::RateLimited,
            ErrorCategory::Validation => ErrorCode::BadRequest,
        }
    }

    fn new(kind: RegistryErrorKind, message: String, category: ErrorCategory) -> (r: Self)
        ensures
            made(r@, kind, message@, category, code_for(category)),
    {
        let error_code = Self::category_to_code(category);
        let backtrace = capture_backtrace();
        RegistryError { kind, message, backtrace, category, error_code, source_module: None }
    }

    /// The error's category.
    pub fn category(&self) -> (r: ErrorCategory)
        ensures
            r == self@.category,
    {
        self.category
    }

    /// The error's code, which is always the code of its category.
    pub fn error_code(&self) -> (r: ErrorCode)
        ensures
            r == self@.error_code,
            r == code_for(self@.category),
    {
        proof {
            use_type_invariant(self);
        }
        self.error_code
    }

    /// The backtrace captured when the error was made, if any.
    pub fn backtrace(&self) -> (r: Option<&str>)
        ensures
            match r {
                Some(s) => self@.backtrace == Some(s@),
                None => self@.backtrace is None,
            },
    {
        match &self.backtrace {
            Some(b) => Some(b.as_str()),
            None => None,
        }
    }

    /// The module the error came from, if set.
    pub fn source_module(&self) -> (r: Option<&str>)
        ensures
            match r {
                Some(s) => self@.source_module == Some(s@),
                None => self@.source_module is None,
            },
    {
        match &self.source_module {
            Some(m) => Some(m.as_str()),
            None => None,
        }
    }

    /// The same error, from the given module.
    pub fn with_source_module(self, module: &str) -> (r: Self)
        ensures
            r@ == (RegistryErrorModel { source_module: Some(module@), ..self@ }),
    {
        proof {
            use_type_invariant(&self);
        }
        RegistryError {
            kind: self.kind,
            message: self.message,
            backtrace: self.backtrace,
            category: self.category,
            error_code: self.error_code,
            source_module: Some(String::from_str(module)),
        }
    }

    /// A database error, made from the database error's text.
    pub fn database(err: &str) -> (r: Self)
        ensures
            made(r@, RegistryErrorKind::Database, err@, ErrorCategory::Database, ErrorCode::DatabaseError),
    {
        Self::new(RegistryErrorKind::Database, String::from_str(err), ErrorCategory::Database)
    }

    /// A missing resource.
    pub fn not_found(msg: &str) -> (r: Self)
        ensures
            made(r@, RegistryErrorKind::NotFound, msg@, ErrorCategory::NotFound, ErrorCode::NotFound),
    {
        Self::new(RegistryErrorKind::NotFound, String::from_str(msg), ErrorCategory::NotFound)
    }

    /// Invalid input.
    pub fn invalid_input(msg: &str) -> (r: Self)
        ensures
            made(r@, RegistryErrorKind::InvalidInput, msg@, ErrorCategory::InvalidInput, ErrorCode::InvalidInput),
    {
        Self::new(RegistryErrorKind::InvalidInput, String::from_str(msg), ErrorCategory::InvalidInput)
    }

    /// A failed contract verification.
    pub fn verification_failed(msg: &str) -> (r: Self)
        ensures
            made(
                r@,
                RegistryErrorKind::VerificationFailed,
                msg@,
                ErrorCategory::VerificationFailed,
                ErrorCode::VerificationFailed,
            ),
    {
        Self::new(
            RegistryErrorKind::VerificationFailed,
            String::from_str(msg),
            ErrorCategory::VerificationFailed,
        )
    }

    /// A failure of the Stellar RPC service.
    pub fn stellar_rpc(msg: &str) -> (r: Self)
        ensures
            made(
                r@,
                RegistryErrorKind::StellarRpc,
                msg@,
                ErrorCategory::StellarRpc,
                ErrorCode::ExternalServiceError,
            ),
    {
        Self::new(RegistryErrorKind::StellarRpc, String::from_str(msg), ErrorCategory::StellarRpc)
    }

    /// An internal error; a backtrace is captured when the environment enables it,
    /// and kept as `internal_with_capture` keeps it.
    pub fn internal(msg: &str) -> (r: Self)
        ensures
            made(r@, RegistryErrorKind::Internal, msg@, ErrorCategory::Internal, ErrorCode::InternalError),
    {
        let captured = capture_backtrace();
        Self::internal_with_capture(msg, captured)
    }

    /// An internal error that keeps, as its backtrace, exactly what a backtrace
    /// capture gave.
    pub fn internal_with_capture(msg: &str, captured: Option<String>) -> (r: Self)
        ensures
            made(r@, RegistryErrorKind::Internal, msg@, ErrorCategory::Internal, ErrorCode::InternalError),
            r@.backtrace == opt_string_view(captured),
    {
        RegistryError {
            kind: RegistryErrorKind::Internal,
            message: String::from_str(msg),
            backtrace: captured,
            category: ErrorCategory::Internal,
            error_code: ErrorCode::InternalError,
            source_module: None,
        }
    }

    /// A failure of the S3 storage service.
    pub fn s3(msg: &str) -> (r: Self)
        ensures
            made(r@, RegistryErrorKind::S3, msg@, ErrorCategory::S3, ErrorCode::ExternalServiceError),
    {
        Self::new(RegistryErrorKind::S3, String::from_str(msg), ErrorCategory::S3)
    }

    /// An I/O error; the error's text becomes the message.
    pub fn io(err: std::io::Error) -> (r: Self)
        ensures
            r@.kind == RegistryErrorKind::Io,
            r@.category == ErrorCategory::Internal,
            r@.error_code == ErrorCode::InternalError,
            r@.source_module is None,
    {
        let text = io_error_text(&err);
        Self::new(RegistryErrorKind::Io, text, ErrorCategory::Internal)
    }

    /// A serialization error, made from its text.
    pub fn serialization(err: &str) -> (r: Self)
        ensures
            made(r@, RegistryErrorKind::Serde, err@, ErrorCategory::Internal, ErrorCode::InternalError),
    {
        Self::new(RegistryErrorKind::Serde, String::from_str(err), ErrorCategory::Internal)
    }

    /// Any other error, made from its text; a backtrace is captured when the
    /// environment enables it.
    pub fn other(err: &str) -> (r: Self)
        ensures
            made(r@, RegistryErrorKind::Anyhow, err@, ErrorCategory::Internal, ErrorCode::InternalError),
    {
        let captured = capture_backtrace();
        Self::other_with_capture(err, captured)
    }

    /// An error made from any other error's text that keeps, as its backtrace,
    /// exactly what a backtrace capture gave.
    pub fn other_with_capture(err: &str, captured: Option<String>) -> (r: Self)
        ensures
            made(r@, RegistryErrorKind::Anyhow, err@, ErrorCategory::Internal, ErrorCode::InternalError),
            r@.backtrace == opt_string_view(captured),
    {
        RegistryError {
            kind: RegistryErrorKind::Anyhow,
            message: String::from_str(err),
            backtrace: captured,
            category: ErrorCategory::Internal,
            error_code: ErrorCode::InternalError,
            source_module: None,
        }
    }

    /// The error as it is displayed: `[CODE] category: <kind prefix><message>`.
    pub fn to_string(&self) -> (r: String)
        ensures
            r@ == error_text(self@),
    {
        let mut out = String::from_str("[");
        out.append(self.error_code.as_str());
        out.append("] ");
        out.append(self.category.as_str());
        out.append(": ");
        out.append(
            match self.kind {
                RegistryErrorKind::Database => "Database error: ",
                RegistryErrorKind::NotFound => "Not found: ",
                RegistryErrorKind::InvalidInput => "Invalid input: ",
                RegistryErrorKind::VerificationFailed => "Verification failed: ",
                RegistryErrorKind::StellarRpc => "Stellar RPC error: ",
                RegistryErrorKind::Internal => "Internal error: ",
                RegistryErrorKind::S3 => "S3 error: ",
                RegistryErrorKind::Io => "IO error: ",
                RegistryErrorKind::Serde => "Serialization error: ",
                RegistryErrorKind::Anyhow => "",
            },
        );
        proof {
            reveal_strlit("");
        }
        out.append(self.message.as_str());
        out
    }

    /// The event that is logged when this error is made: its kind's label, level
    /// and category, its code, its message, and for an internal error its
    /// backtrace (or `none`).
    pub fn creation_event(&self) -> (r: CreationEvent)
        ensures
            r.level == creation_level(self@.kind),
            r.label@ == creation_label(self@.kind),
            r.category@ == creation_category(self@.kind),
            r.error_code@ == code_name(self@.error_code),
            r.detail_name@ == creation_detail_name(self@.kind),
            r.detail@ == self@.message,
            opt_string_view(r.backtrace) == creation_backtrace(self@),
    {
        let (level, label, category, detail_name) = match self.kind {
            RegistryErrorKind::Database => (LogLevel::Error, "database_error", "database", "error"),
            RegistryErrorKind::NotFound => (LogLevel::Warn, "resource_not_found", "not_found", "message"),
            RegistryErrorKind::InvalidInput => (LogLevel::Warn, "invalid_input", "invalid_input", "message"),
            RegistryErrorKind::VerificationFailed => (
                LogLevel::Error,
                "verification_failed",
                "verification_failed",
                "message",
            ),
            RegistryErrorKind::StellarRpc => (LogLevel::Error, "stellar_rpc_error", "stellar_rpc", "message"),
            RegistryErrorKind::Internal => (LogLevel::Error, "internal_error", "internal", "message"),
            RegistryErrorKind::S3 => (LogLevel::Error, "s3_error", "s3", "message"),
            RegistryErrorKind::Io => (LogLevel::Error, "io_error", "io", "error"),
            RegistryErrorKind::Serde => (LogLevel::Error, "json_error", "serialization", "error"),
            RegistryErrorKind::Anyhow => (LogLevel::Error, "anyhow_error", "internal", "error"),
        };
        let backtrace = match self.kind {
            RegistryErrorKind::Internal | RegistryErrorKind::Anyhow => Some(
                match &self.backtrace {
                    Some(b) => b.clone(),
                    None => String::from_str("none"),
                },
            ),
            _ => None,
        };
        CreationEvent {
            level,
            label: String::from_str(label),
            category: String::from_str(category),
            error_code: String::from_str(self.error_code.as_str()),
            detail_name: String::from_str(detail_name),
            detail: self.message.clone(),
            backtrace,
        }
    }

    /// The event that logs this error with its context: a database error records
    /// its error text, a Stellar RPC error its message, any other error its
    /// displayed text; each records the backtrace (or `none`) and the source module
    /// (or `unknown`).
    pub fn log_with_context(&self) -> (r: ErrorContextEvent)
        ensures
            r.category@ == category_name(self@.category),
            r.error_code@ == code_name(self@.error_code),
            r.backtrace@ == match self@.backtrace {
                Some(b) => b,
                None => "none"@,
            },
            r.source_module@ == match self@.source_module {
                Some(m) => m,
                None => "unknown"@,
            },
            self@.kind == RegistryErrorKind::Database ==> r.label@ == "database_error"@
                && r.detail_name@ == "error"@ && r.detail@ == self@.message,
            self@.kind == RegistryErrorKind::StellarRpc ==> r.label@ == "stellar_rpc_error"@
                && r.detail_name@ == "message"@ && r.detail@ == self@.message,
            self@.kind != RegistryErrorKind::Database && self@.kind != RegistryErrorKind::StellarRpc
                ==> r.label@ == "registry_error"@ && r.detail_name@ == "error"@ && r.detail@
                == error_text(self@),
    {
        let backtrace = match &self.backtrace {
            Some(b) => b.clone(),
            None => String::from_str("none"),
        };
        let source_module = match &self.source_module {
            Some(m) => m.clone(),
            None => String::from_str("unknown"),
        };
        let (label, detail_name, detail) = match self.kind {
            RegistryErrorKind::Database => (
                String::from_str("database_error"),
                String::from_str("error"),
                self.message.clone(),
            ),
            RegistryErrorKind::StellarRpc => (
                String::from_str("stellar_rpc_error"),
                String::from_str("message"),
                self.message.clone(),
            ),
            _ => (String::from_str("registry_error"), String::from_str("error"), self.to_string()),
        };
        ErrorContextEvent {
            label,
            category: String::from_str(self.category.as_str()),
            error_code: String::from_str(self.error_code.as_str()),
            detail_name,
            detail,
            backtrace,
            source_module,
        }
    }
}

/// The result of a registry operation.
pub type Result<T> = std::result::Result<T, RegistryError>;

} // verus!
