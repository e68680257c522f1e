//! Error codes, application errors and error responses.
use vstd::prelude::*;
use crate::ids::{is_random_uuid, new_uuid_v4, uuid_text, uuid_to_string};
use crate::json::JsonValue;
use crate::text::{decimal, push_decimal, push_str};

verus! {

/// Error codes for machine-readable error identification.
#[derive(Debug, Clone, Copy, PartialEq, Eq, Structural)]
pub enum ErrorCode {
    /// Request parameter validation failed
    ValidationError,
    /// Invalid update mode
    InvalidUpdateMode,
    /// Memory ID not found
    MemoryNotFound,
    /// Event ID not found
    EventNotFound,
    /// Embedding provider not found
    ProviderNotFound,
    /// Specified provider is disabled
    ProviderDisabled,
    /// No default provider configured
    NoDefaultProvider,
    /// Embedding generation failed after retries
    EmbeddingFailed,
    /// Provider rate limit exceeded
    RateLimitExceeded,
    /// PostgreSQL operation failed
    DatabaseError,
    /// Qdrant operation failed
    VectorDbError,
    /// Configuration loading/validation failed
    ConfigError,
    /// Internal server error
    InternalError,
    /// Event content is too short for processing
    EventContentTooShort,
    /// No valid memories could be extracted from event
    NoMemoriesExtracted,
    /// Query enhancement failed
    QueryEnhancementFailed,
}

/// HTTP 400.
pub const BAD_REQUEST: u16 = 400;

/// HTTP 404.
pub const NOT_FOUND: u16 = 404;

/// HTTP 422.
pub const UNPROCESSABLE_ENTITY: u16 = 422;

/// HTTP 429.
pub const TOO_MANY_REQUESTS: u16 = 429;

/// HTTP 500.
pub const INTERNAL_SERVER_ERROR: u16 = 500;

impl ErrorCode {
    /// The HTTP status answered for an error code.
    pub open spec fn spec_status_code(self) -> u16 {
        match self {
            ErrorCode::ValidationError
            | ErrorCode::InvalidUpdateMode
            | ErrorCode::ProviderDisabled
            | ErrorCode::EventContentTooShort => BAD_REQUEST,
            ErrorCode::MemoryNotFound
            | ErrorCode::ProviderNotFound
            | ErrorCode::EventNotFound => NOT_FOUND,
            ErrorCode::RateLimitExceeded => TOO_MANY_REQUESTS,
            ErrorCode::NoMemoriesExtracted => UNPROCESSABLE_ENTITY,
            _ => INTERNAL_SERVER_ERROR,
        }
    }

    /// The HTTP status code for this error.
    pub fn status_code(&self) -> (r: u16)
        ensures
            r == self.spec_status_code(),
    {
        match self {
            ErrorCode::ValidationError
            | ErrorCode::InvalidUpdateMode
            | ErrorCode::ProviderDisabled
            | ErrorCode::EventContentTooShort => BAD_REQUEST,
            ErrorCode::MemoryNotFound
            | ErrorCode::ProviderNotFound
            | ErrorCode::EventNotFound => NOT_FOUND,
            ErrorCode::RateLimitExceeded => TOO_MANY_REQUESTS,
            ErrorCode::NoMemoriesExtracted => UNPROCESSABLE_ENTITY,
            ErrorCode::NoDefaultProvider
            | ErrorCode::EmbeddingFailed
            | ErrorCode::DatabaseError
            | ErrorCode::VectorDbError
            | ErrorCode::ConfigError
            | ErrorCode::QueryEnhancementFailed
            | ErrorCode::InternalError => INTERNAL_SERVER_ERROR,
        }
    }

    /// The SCREAMING_SNAKE_CASE name of the code.
    pub open spec fn spec_name(self) -> Seq<char> {
        match self {
            ErrorCode::ValidationError => "VALIDATION_ERROR"@,
            ErrorCode::InvalidUpdateMode => "INVALID_UPDATE_MODE"@,
            ErrorCode::MemoryNotFound => "MEMORY_NOT_FOUND"@,
            ErrorCode::EventNotFound => "EVENT_NOT_FOUND"@,
            ErrorCode::ProviderNotFound => "PROVIDER_NOT_FOUND"@,
            ErrorCode::ProviderDisabled => "PROVIDER_DISABLED"@,
            ErrorCode::NoDefaultProvider => "NO_DEFAULT_PROVIDER"@,
            ErrorCode::EmbeddingFailed => "EMBEDDING_FAILED"@,
            ErrorCode::RateLimitExceeded => "RATE_LIMIT_EXCEEDED"@,
            ErrorCode::DatabaseError => "DATABASE_ERROR"@,
            ErrorCode::VectorDbError => "VECTOR_DB_ERROR"@,
            ErrorCode::ConfigError => "CONFIG_ERROR"@,
            ErrorCode::InternalError => "INTERNAL_ERROR"@,
            ErrorCode::EventContentTooShort => "EVENT_CONTENT_TOO_SHORT"@,
            ErrorCode::NoMemoriesExtracted => "NO_MEMORIES_EXTRACTED"@,
            ErrorCode::QueryEnhancementFailed => "QUERY_ENHANCEMENT_FAILED"@,
        }
    }

    /// The SCREAMING_SNAKE_CASE name of the code.
    pub fn as_str(&self) -> (s: &'static str)
        ensures
            s@ == self.spec_name(),
    {
        match self {
            ErrorCode::ValidationError => "VALIDATION_ERROR",
            ErrorCode::InvalidUpdateMode => "INVALID_UPDATE_MODE",
            ErrorCode::MemoryNotFound => "MEMORY_NOT_FOUND",
            ErrorCode::EventNotFound => "EVENT_NOT_FOUND",
            ErrorCode::ProviderNotFound => "PROVIDER_NOT_FOUND",
            ErrorCode::ProviderDisabled => "PROVIDER_DISABLED",
            ErrorCode::NoDefaultProvider => "NO_DEFAULT_PROVIDER",
            ErrorCode::EmbeddingFailed => "EMBEDDING_FAILED",
            ErrorCode::RateLimitExceeded => "RATE_LIMIT_EXCEEDED",
            ErrorCode::DatabaseError => "DATABASE_ERROR",
            ErrorCode::VectorDbError => "VECTOR_DB_ERROR",
            ErrorCode::ConfigError => "CONFIG_ERROR",
            ErrorCode::InternalError => "INTERNAL_ERROR",
            ErrorCode::EventContentTooShort => "EVENT_CONTENT_TOO_SHORT",
            ErrorCode::NoMemoriesExtracted => "NO_MEMORIES_EXTRACTED",
            ErrorCode::QueryEnhancementFailed => "QUERY_ENHANCEMENT_FAILED",
        }
    }
}

/// Standard error response format.
#[derive(Debug)]
pub struct ErrorResponse {
    /// Machine-readable error code
    pub code: ErrorCode,
    /// Human-readable error message
    pub message: String,
    /// Additional error details (optional)
    pub details: Option<JsonValue>,
    /// Request ID for tracing
    pub request_id: String,
}

/// The request id is the text of a fresh random UUID.
pub open spec fn is_fresh_request_id(s: Seq<char>) -> bool {
    exists|id: u128| is_random_uuid(id) && s == uuid_text(id)
}

/// The text of a fresh random request id.
fn fresh_request_id() -> (r: String)
    ensures
        is_fresh_request_id(r@),
{
    let id = new_uuid_v4();
    uuid_to_string(id)
}

impl ErrorResponse {
    /// A new error response with a fresh request id.
    pub fn new(code: ErrorCode, message: &str) -> (r: ErrorResponse)
        ensures
            r.code == code,
            r.message@ == message@,
            r.details is None,
            is_fresh_request_id(r.request_id@),
    {
        ErrorResponse {
            code,
            message: message.to_owned(),
            details: None,
            request_id: fresh_request_id(),
        }
    }

    /// A new error response with details and a fresh request id.
    pub fn with_details(code: ErrorCode, message: &str, details: JsonValue) -> (r: ErrorResponse)
        ensures
            r.code == code,
            r.message@ == message@,
            r.details == Some(details),
            is_fresh_request_id(r.request_id@),
    {
        ErrorResponse {
            code,
            message: message.to_owned(),
            details: Some(details),
            request_id: fresh_request_id(),
        }
    }

    /// The same response with the given request id.
    pub fn with_request_id(self, request_id: &str) -> (r: ErrorResponse)
        ensures
            r.code == self.code,
            r.message == self.message,
            r.details == self.details,
            r.request_id@ == request_id@,
    {
        ErrorResponse { request_id: request_id.to_owned(), ..self }
    }
}

/// Application error type.
#[derive(Debug)]
pub enum AppError {
    Validation(String),
    InvalidUpdateMode(String),
    MemoryNotFound(u128),
    EventNotFound(u128),
    ProviderNotFound(String),
    ProviderDisabled(String),
    NoDefaultProvider,
    EmbeddingFailed(String),
    RateLimitExceeded(String),
    /// A database failure, by the database error's message.
    Database(String),
    VectorDb(String),
    Config(String),
    Internal(String),
    EventContentTooShort { min: usize, actual: usize },
    NoMemoriesExtracted,
    QueryEnhancementFailed(String),
}

/// A validation failure carrying the given message.
pub open spec fn is_validation_error(r: Result<(), AppError>, msg: Seq<char>) -> bool {
    r matches Err(AppError::Validation(m)) && m@ == msg
}

impl AppError {
    /// The error code of an error.
    pub open spec fn spec_error_code(&self) -> ErrorCode {
        match self {
            AppError::Validation(_) => ErrorCode::ValidationError,
            AppError::InvalidUpdateMode(_) => ErrorCode::InvalidUpdateMode,
            AppError::MemoryNotFound(_) => ErrorCode::MemoryNotFound,
            AppError::EventNotFound(_) => ErrorCode::EventNotFound,
            AppError::ProviderNotFound(_) => ErrorCode::ProviderNotFound,
            AppError::ProviderDisabled(_) => ErrorCode::ProviderDisabled,
            AppError::NoDefaultProvider => ErrorCode::NoDefaultProvider,
            AppError::EmbeddingFailed(_) => ErrorCode::EmbeddingFailed,
            AppError::RateLimitExceeded(_) => ErrorCode::RateLimitExceeded,
            AppError::Database(_) => ErrorCode::DatabaseError,
            AppError::VectorDb(_) => ErrorCode::VectorDbError,
            AppError::Config(_) => ErrorCode::ConfigError,
            AppError::Internal(_) => ErrorCode::InternalError,
            AppError::EventContentTooShort { .. } => ErrorCode::EventContentTooShort,
            AppError::NoMemoriesExtracted => ErrorCode::NoMemoriesExtracted,
            AppError::QueryEnhancementFailed(_) => ErrorCode::QueryEnhancementFailed,
        }
    }

    /// The display text of an error.
    pub open spec fn spec_message(&self) -> Seq<char> {
        match self {
            AppError::Validation(m) => "Validation error: "@ + m@,
            AppError::InvalidUpdateMode(m) => "Invalid update mode: "@ + m@,
            AppError::MemoryNotFound(id) => "Memory not found: "@ + uuid_text(*id),
            AppError::EventNotFound(id) => "Event not found: "@ + uuid_text(*id),
            AppError::ProviderNotFound(m) => "Provider not found: "@ + m@,
            AppError::ProviderDisabled(m) => "Provider disabled: "@ + m@,
            AppError::NoDefaultProvider => "No default embedding provider configured"@,
            AppError::EmbeddingFailed(m) => "Embedding failed after retries: "@ + m@,
            AppError::RateLimitExceeded(m) => "Rate limit exceeded for provider: "@ + m@,
            AppError::Database(m) => "Database error: "@ + m@,
            AppError::VectorDb(m) => "Vector database error: "@ + m@,
            AppError::Config(m) => "Configuration error: "@ + m@,
            AppError::Internal(m) => "Internal error: "@ + m@,
            AppError::EventContentTooShort { min, actual } => "Event content too short: minimum "@
                + decimal(*min as nat) + " characters required, got "@ + decimal(*actual as nat),
            AppError::NoMemoriesExtracted => "No valid memories could be extracted from event"@,
            AppError::QueryEnhancementFailed(m) => "Query enhancement failed: "@ + m@,
        }
    }

    /// The error code for this error.
    pub fn error_code(&self) -> (c: ErrorCode)
        ensures
            c == self.spec_error_code(),
    {
        match self {
            AppError::Validation(_) => ErrorCode::ValidationError,
            AppError::InvalidUpdateMode(_) => ErrorCode::InvalidUpdateMode,
            AppError::MemoryNotFound(_) => ErrorCode::MemoryNotFound,
            AppError::EventNotFound(_) => ErrorCode::EventNotFound,
            AppError::ProviderNotFound(_) => ErrorCode::ProviderNotFound,
            AppError::ProviderDisabled(_) => ErrorCode::ProviderDisabled,
            AppError::NoDefaultProvider => ErrorCode::NoDefaultProvider,
            AppError::EmbeddingFailed(_) => ErrorCode::EmbeddingFailed,
            AppError::RateLimitExceeded(_) => ErrorCode::RateLimitExceeded,
            AppError::Database(_) => ErrorCode::DatabaseError,
            AppError::VectorDb(_) => ErrorCode::VectorDbError,
            AppError::Config(_) => ErrorCode::ConfigError,
            AppError::Internal(_) => ErrorCode::InternalError,
            AppError::EventContentTooShort { .. } => ErrorCode::EventContentTooShort,
            AppError::NoMemoriesExtracted => ErrorCode::NoMemoriesExtracted,
            AppError::QueryEnhancementFailed(_) => ErrorCode::QueryEnhancementFailed,
        }
    }

    /// The display text of this error.
    pub fn to_string(&self) -> (r: String)
        ensures
            r@ == self.spec_message(),
    {
        let (prefix, detail): (&str, Option<&String>) = match self {
            AppError::Validation(m) => ("Validation error: ", Some(m)),
            AppError::InvalidUpdateMode(m) => ("Invalid update mode: ", Some(m)),
            AppError::MemoryNotFound(id) => {
                let mut r = "Memory not found: ".to_owned();
                push_str(&mut r, uuid_to_string(*id).as_str());
                return r;
            },
            AppError::EventNotFound(id) => {
                let mut r = "Event not found: ".to_owned();
                push_str(&mut r, uuid_to_string(*id).as_str());
                return r;
            },
            AppError::ProviderNotFound(m) => ("Provider not found: ", Some(m)),
            AppError::ProviderDisabled(m) => ("Provider disabled: ", Some(m)),
            AppError::NoDefaultProvider => ("No default embedding provider configured", None),
            AppError::EmbeddingFailed(m) => ("Embedding failed after retries: ", Some(m)),
            AppError::RateLimitExceeded(m) => ("Rate limit exceeded for provider: ", Some(m)),
            AppError::Database(m) => ("Database error: ", Some(m)),
            AppError::VectorDb(m) => ("Vector database error: ", Some(m)),
            AppError::Config(m) => ("Configuration error: ", Some(m)),
            AppError::Internal(m) => ("Internal error: ", Some(m)),
            AppError::EventContentTooShort { min, actual } => {
                let mut r = "Event content too short: minimum ".to_owned();
                push_decimal(&mut r, *min as u64);
                push_str(&mut r, " characters required, got ");
                push_decimal(&mut r, *actual as u64);
                return r;
            },
            AppError::NoMemoriesExtracted => ("No valid memories could be extracted from event", None),
            AppError::QueryEnhancementFailed(m) => ("Query enhancement failed: ", Some(m)),
        };
        let mut r = prefix.to_owned();
        if let Some(m) = detail {
            push_str(&mut r, m.as_str());
        }
        r
    }

    /// The error response for this error, with a fresh request id.
    pub fn to_response(&self) -> (r: ErrorResponse)
        ensures
            r.code == self.spec_error_code(),
            r.message@ == self.spec_message(),
            r.details is None,
            is_fresh_request_id(r.request_id@),
    {
        let message = self.to_string();
        ErrorResponse::new(self.error_code(), message.as_str())
    }
}

/// Every error is answered with the HTTP status of its code, and that status
/// is a client or server error (4xx or 5xx).
pub proof fn error_status_is_an_error(e: AppError)
    ensures
        400 <= e.spec_error_code().spec_status_code() < 600,
        (e is Validation) ==> e.spec_error_code().spec_status_code() == BAD_REQUEST,
        (e is MemoryNotFound || e is EventNotFound) ==> e.spec_error_code().spec_status_code()
            == NOT_FOUND,
{
}

} // verus!
