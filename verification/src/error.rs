//! The error type shared by every operation of the library, with the
//! classification rules (retryable, next-mirror, category) that the download
//! engine uses to decide what to do after a failure.
use vstd::prelude::*;
use crate::text::{concat2, owned, dec_str, push_decimal};

verus! {

/// Main error type for turbo-cdn operations.
///
/// Failures that come from the network stack, the file system, URL parsing or
/// JSON handling carry the text of the underlying error.
#[derive(Debug, Clone)]
pub enum TurboCdnError {
    /// Network-related errors
    Network { message: String },
    /// IO-related errors
    Io { message: String },
    /// URL parsing errors
    InvalidUrl { message: String },
    /// JSON parsing errors
    Json { message: String },
    /// Configuration errors
    Config { message: String },
    /// Download errors
    Download { message: String },
    /// Source validation errors
    SourceValidation { message: String },
    /// Compliance errors
    Compliance { message: String },
    /// Cache errors
    Cache { message: String },
    /// Routing errors
    Routing { message: String },
    /// Authentication errors
    Authentication { message: String },
    /// Rate limiting errors
    RateLimit { message: String },
    /// Timeout errors
    Timeout { message: String },
    /// Checksum validation errors
    ChecksumMismatch { expected: String, actual: String },
    /// File not found errors
    FileNotFound { path: String },
    /// HTTP status code errors (non-retryable client errors like 404)
    HttpStatus { status_code: u16, message: String, url: String },
    /// Server errors (5xx, potentially retryable)
    ServerError { status_code: u16, message: String, url: String },
    /// Unsupported operation errors
    Unsupported { message: String },
    /// Generic errors
    Internal { message: String },
}

/// Result type alias for turbo-cdn operations
pub type Result<T> = std::result::Result<T, TurboCdnError>;

/// The reason phrase that goes with an HTTP status code.
pub open spec fn status_reason(status_code: u16) -> Seq<char> {
    if status_code == 400 {
        "Bad Request"@
    } else if status_code == 401 {
        "Unauthorized"@
    } else if status_code == 403 {
        "Forbidden"@
    } else if status_code == 404 {
        "Not Found"@
    } else if status_code == 405 {
        "Method Not Allowed"@
    } else if status_code == 408 {
        "Request Timeout"@
    } else if status_code == 429 {
        "Too Many Requests"@
    } else if status_code == 500 {
        "Internal Server Error"@
    } else if status_code == 502 {
        "Bad Gateway"@
    } else if status_code == 503 {
        "Service Unavailable"@
    } else if status_code == 504 {
        "Gateway Timeout"@
    } else {
        "Unknown Error"@
    }
}

/// Whether an error is worth retrying against the same server.
pub open spec fn spec_is_retryable(e: TurboCdnError) -> bool {
    match e {
        TurboCdnError::Network { .. } => true,
        TurboCdnError::Timeout { .. } => true,
        TurboCdnError::RateLimit { .. } => true,
        TurboCdnError::Io { .. } => true,
        TurboCdnError::ServerError { .. } => true,
        _ => false,
    }
}

/// The HTTP status code an error carries, if it carries one.
pub open spec fn spec_status_code(e: TurboCdnError) -> Option<u16> {
    match e {
        TurboCdnError::HttpStatus { status_code, .. } => Some(status_code),
        TurboCdnError::ServerError { status_code, .. } => Some(status_code),
        _ => None,
    }
}

/// The error that an HTTP status code gives for a request to `url`: a
/// server error from 500 on, a rate-limit error for 429, and otherwise a
/// plain HTTP status error, each with the status's reason phrase.
pub open spec fn is_status_error(e: TurboCdnError, status_code: u16, url: Seq<char>) -> bool {
    &&& status_code >= 500 ==> (e matches TurboCdnError::ServerError { status_code: c, message: m, url: u }
        && c == status_code && m@ == status_reason(status_code) && u@ == url)
    &&& status_code == 429 ==> (e matches TurboCdnError::RateLimit { message: m } && m@
        == "Rate limited by "@ + url)
    &&& status_code < 500 && status_code != 429 ==> (e matches TurboCdnError::HttpStatus { status_code: c, message: m, url: u }
        && c == status_code && m@ == status_reason(status_code) && u@ == url)
}

impl TurboCdnError {
    /// Create a new configuration error
    pub fn config(message: &str) -> (e: Self)
        ensures
            e matches TurboCdnError::Config { message: m } && m@ == message@,
    {
        TurboCdnError::Config { message: owned(message) }
    }

    /// Create a new download error
    pub fn download(message: &str) -> (e: Self)
        ensures
            e matches TurboCdnError::Download { message: m } && m@ == message@,
    {
        TurboCdnError::Download { message: owned(message) }
    }

    /// Create a new source validation error
    pub fn source_validation(message: &str) -> (e: Self)
        ensures
            e matches TurboCdnError::SourceValidation { message: m } && m@ == message@,
    {
        TurboCdnError::SourceValidation { message: owned(message) }
    }

    /// Create a new compliance error
    pub fn compliance(message: &str) -> (e: Self)
        ensures
            e matches TurboCdnError::Compliance { message: m } && m@ == message@,
    {
        TurboCdnError::Compliance { message: owned(message) }
    }

    /// Create a new cache error
    pub fn cache(message: &str) -> (e: Self)
        ensures
            e matches TurboCdnError::Cache { message: m } && m@ == message@,
    {
        TurboCdnError::Cache { message: owned(message) }
    }

    /// Create a new routing error
    pub fn routing(message: &str) -> (e: Self)
        ensures
            e matches TurboCdnError::Routing { message: m } && m@ == message@,
    {
        TurboCdnError::Routing { message: owned(message) }
    }

    /// Create a new authentication error
    pub fn authentication(message: &str) -> (e: Self)
        ensures
            e matches TurboCdnError::Authentication { message: m } && m@ == message@,
    {
        TurboCdnError::Authentication { message: owned(message) }
    }

    /// Create a new rate limit error
    pub fn rate_limit(message: &str) -> (e: Self)
        ensures
            e matches TurboCdnError::RateLimit { message: m } && m@ == message@,
    {
        TurboCdnError::RateLimit { message: owned(message) }
    }

    /// Create a new timeout error
    pub fn timeout(message: &str) -> (e: Self)
        ensures
            e matches TurboCdnError::Timeout { message: m } && m@ == message@,
    {
        TurboCdnError::Timeout { message: owned(message) }
    }

    /// Create a new checksum mismatch error
    pub fn checksum_mismatch(expected: &str, actual: &str) -> (e: Self)
        ensures
            e matches TurboCdnError::ChecksumMismatch { expected: x, actual: a } && x@ == expected@
                && a@ == actual@,
    {
        TurboCdnError::ChecksumMismatch { expected: owned(expected), actual: owned(actual) }
    }

    /// Create a new file not found error
    pub fn file_not_found(path: &str) -> (e: Self)
        ensures
            e matches TurboCdnError::FileNotFound { path: p } && p@ == path@,
    {
        TurboCdnError::FileNotFound { path: owned(path) }
    }

    /// Create a new HTTP status error (for 4xx client errors)
    pub fn http_status(status_code: u16, message: &str, url: &str) -> (e: Self)
        ensures
            e matches TurboCdnError::HttpStatus { status_code: c, message: m, url: u } && c
                == status_code && m@ == message@ && u@ == url@,
    {
        TurboCdnError::HttpStatus { status_code, message: owned(message), url: owned(url) }
    }

    /// Create a new server error (for 5xx errors)
    pub fn server_error(status_code: u16, message: &str, url: &str) -> (e: Self)
        ensures
            e matches TurboCdnError::ServerError { status_code: c, message: m, url: u } && c
                == status_code && m@ == message@ && u@ == url@,
    {
        TurboCdnError::ServerError { status_code, message: owned(message), url: owned(url) }
    }

    /// The reason phrase for a status code (the text used by `from_status_code`).
    pub fn status_reason(status_code: u16) -> (r: &'static str)
        ensures
            r@ == status_reason(status_code),
    {
        match status_code {
            400 => "Bad Request",
            401 => "Unauthorized",
            403 => "Forbidden",
            404 => "Not Found",
            405 => "Method Not Allowed",
            408 => "Request Timeout",
            429 => "Too Many Requests",
            500 => "Internal Server Error",
            502 => "Bad Gateway",
            503 => "Service Unavailable",
            504 => "Gateway Timeout",
            _ => "Unknown Error",
        }
    }

    /// Create an error from HTTP status code: 5xx codes give a server error,
    /// 429 a rate-limit error, every other code a client HTTP error.
    pub fn from_status_code(status_code: u16, url: &str) -> (e: Self)
        ensures
            is_status_error(e, status_code, url@),
    {
        let message = Self::status_reason(status_code);
        if status_code >= 500 {
            TurboCdnError::ServerError { status_code, message: owned(message), url: owned(url) }
        } else if status_code == 429 {
            TurboCdnError::RateLimit { message: concat2("Rate limited by ", url) }
        } else {
            TurboCdnError::HttpStatus { status_code, message: owned(message), url: owned(url) }
        }
    }

    /// Create a new unsupported operation error
    pub fn unsupported(message: &str) -> (e: Self)
        ensures
            e matches TurboCdnError::Unsupported { message: m } && m@ == message@,
    {
        TurboCdnError::Unsupported { message: owned(message) }
    }

    /// Create a new internal error
    pub fn internal(message: &str) -> (e: Self)
        ensures
            e matches TurboCdnError::Internal { message: m } && m@ == message@,
    {
        TurboCdnError::Internal { message: owned(message) }
    }

    /// Create a new network error (reported as an internal error whose
    /// message is prefixed with "Network error: ")
    pub fn network(message: &str) -> (e: Self)
        ensures
            e matches TurboCdnError::Internal { message: m } && m@ == "Network error: "@ + message@,
    {
        TurboCdnError::Internal { message: concat2("Network error: ", message) }
    }

    /// Create a new IO error (reported as an internal error whose message is
    /// prefixed with "IO error: ")
    pub fn io(message: &str) -> (e: Self)
        ensures
            e matches TurboCdnError::Internal { message: m } && m@ == "IO error: "@ + message@,
    {
        TurboCdnError::Internal { message: concat2("IO error: ", message) }
    }

    /// Check if the error is retryable
    pub fn is_retryable(&self) -> (r: bool)
        ensures
            r == spec_is_retryable(*self),
    {
        match self {
            TurboCdnError::Network { .. } => true,
            TurboCdnError::Timeout { .. } => true,
            TurboCdnError::RateLimit { .. } => true,
            TurboCdnError::Io { .. } => true,
            TurboCdnError::ServerError { .. } => true,
            TurboCdnError::HttpStatus { .. } => false,
            _ => false,
        }
    }

    /// Check if this error indicates the resource doesn't exist on this
    /// server and the next mirror should be tried at once
    pub fn should_try_next_mirror(&self) -> (r: bool)
        ensures
            r == match *self {
                TurboCdnError::HttpStatus { status_code, .. } => status_code == 404,
                TurboCdnError::ServerError { .. } => true,
                TurboCdnError::Network { .. } => true,
                TurboCdnError::Timeout { .. } => true,
                _ => false,
            },
    {
        match self {
            TurboCdnError::HttpStatus { status_code, .. } => *status_code == 404,
            TurboCdnError::ServerError { .. } => true,
            TurboCdnError::Network { .. } => true,
            TurboCdnError::Timeout { .. } => true,
            _ => false,
        }
    }

    /// Get HTTP status code if this is an HTTP error
    pub fn status_code(&self) -> (r: Option<u16>)
        ensures
            r == spec_status_code(*self),
    {
        match self {
            TurboCdnError::HttpStatus { status_code, .. } => Some(*status_code),
            TurboCdnError::ServerError { status_code, .. } => Some(*status_code),
            _ => None,
        }
    }

    /// Get the error category for metrics and logging
    pub fn category(&self) -> (r: &'static str)
        ensures
            r@ == match *self {
                TurboCdnError::Network { .. } => "network"@,
                TurboCdnError::Io { .. } => "io"@,
                TurboCdnError::InvalidUrl { .. } => "url"@,
                TurboCdnError::Json { .. } => "json"@,
                TurboCdnError::Config { .. } => "config"@,
                TurboCdnError::Download { .. } => "download"@,
                TurboCdnError::SourceValidation { .. } => "source_validation"@,
                TurboCdnError::Compliance { .. } => "compliance"@,
                TurboCdnError::Cache { .. } => "cache"@,
                TurboCdnError::Routing { .. } => "routing"@,
                TurboCdnError::Authentication { .. } => "authentication"@,
                TurboCdnError::RateLimit { .. } => "rate_limit"@,
                TurboCdnError::Timeout { .. } => "timeout"@,
                TurboCdnError::ChecksumMismatch { .. } => "checksum"@,
                TurboCdnError::FileNotFound { .. } => "file_not_found"@,
                TurboCdnError::HttpStatus { .. } => "http_status"@,
                TurboCdnError::ServerError { .. } => "server_error"@,
                TurboCdnError::Unsupported { .. } => "unsupported"@,
                TurboCdnError::Internal { .. } => "internal"@,
            },
    {
        match self {
            TurboCdnError::Network { .. } => "network",
            TurboCdnError::Io { .. } => "io",
            TurboCdnError::InvalidUrl { .. } => "url",
            TurboCdnError::Json { .. } => "json",
            TurboCdnError::Config { .. } => "config",
            TurboCdnError::Download { .. } => "download",
            TurboCdnError::SourceValidation { .. } => "source_validation",
            TurboCdnError::Compliance { .. } => "compliance",
            TurboCdnError::Cache { .. } => "cache",
            TurboCdnError::Routing { .. } => "routing",
            TurboCdnError::Authentication { .. } => "authentication",
            TurboCdnError::RateLimit { .. } => "rate_limit",
            TurboCdnError::Timeout { .. } => "timeout",
            TurboCdnError::ChecksumMismatch { .. } => "checksum",
            TurboCdnError::FileNotFound { .. } => "file_not_found",
            TurboCdnError::HttpStatus { .. } => "http_status",
            TurboCdnError::ServerError { .. } => "server_error",
            TurboCdnError::Unsupported { .. } => "unsupported",
            TurboCdnError::Internal { .. } => "internal",
        }
    }
}

/// The display text of an error.
pub open spec fn error_text(e: TurboCdnError) -> Seq<char> {
    match e {
        TurboCdnError::Network { message } => "Network error: "@ + message@,
        TurboCdnError::Io { message } => "IO error: "@ + message@,
        TurboCdnError::InvalidUrl { message } => "Invalid URL: "@ + message@,
        TurboCdnError::Json { message } => "JSON parsing error: "@ + message@,
        TurboCdnError::Config { message } => "Configuration error: "@ + message@,
        TurboCdnError::Download { message } => "Download failed: "@ + message@,
        TurboCdnError::SourceValidation { message } => "Source validation failed: "@ + message@,
        TurboCdnError::Compliance { message } => "Compliance check failed: "@ + message@,
        TurboCdnError::Cache { message } => "Cache error: "@ + message@,
        TurboCdnError::Routing { message } => "Routing error: "@ + message@,
        TurboCdnError::Authentication { message } => "Authentication failed: "@ + message@,
        TurboCdnError::RateLimit { message } => "Rate limit exceeded: "@ + message@,
        TurboCdnError::Timeout { message } => "Operation timed out: "@ + message@,
        TurboCdnError::ChecksumMismatch { expected, actual } => "Checksum validation failed: expected "@ + expected@
            + ", got "@ + actual@,
        TurboCdnError::FileNotFound { path } => "File not found: "@ + path@,
        TurboCdnError::HttpStatus { status_code, message, .. } => "HTTP "@ + dec_str(status_code as nat) + ": "@
            + message@,
        TurboCdnError::ServerError { status_code, message, .. } => "Server error "@ + dec_str(status_code as nat)
            + ": "@ + message@,
        TurboCdnError::Unsupported { message } => "Unsupported operation: "@ + message@,
        TurboCdnError::Internal { message } => "Internal error: "@ + message@,
    }
}

impl TurboCdnError {
    /// The display text of the error (what `to_string` gives).
    pub fn to_message(&self) -> (r: String)
        ensures
            r@ == error_text(*self),
    {
        match self {
            TurboCdnError::Network { message } => concat2("Network error: ", message.as_str()),
            TurboCdnError::Io { message } => concat2("IO error: ", message.as_str()),
            TurboCdnError::InvalidUrl { message } => concat2("Invalid URL: ", message.as_str()),
            TurboCdnError::Json { message } => concat2("JSON parsing error: ", message.as_str()),
            TurboCdnError::Config { message } => concat2("Configuration error: ", message.as_str()),
            TurboCdnError::Download { message } => concat2("Download failed: ", message.as_str()),
            TurboCdnError::SourceValidation { message } => concat2("Source validation failed: ", message.as_str()),
            TurboCdnError::Compliance { message } => concat2("Compliance check failed: ", message.as_str()),
            TurboCdnError::Cache { message } => concat2("Cache error: ", message.as_str()),
            TurboCdnError::Routing { message } => concat2("Routing error: ", message.as_str()),
            TurboCdnError::Authentication { message } => concat2("Authentication failed: ", message.as_str()),
            TurboCdnError::RateLimit { message } => concat2("Rate limit exceeded: ", message.as_str()),
            TurboCdnError::Timeout { message } => concat2("Operation timed out: ", message.as_str()),
            TurboCdnError::ChecksumMismatch { expected, actual } => {
                let mut r = concat2("Checksum validation failed: expected ", expected.as_str());
                r.append(", got ");
                r.append(actual.as_str());
                r
            },
            TurboCdnError::FileNotFound { path } => concat2("File not found: ", path.as_str()),
            TurboCdnError::HttpStatus { status_code, message, .. } => {
                let mut r = owned("HTTP ");
                push_decimal(&mut r, *status_code as u64);
                r.append(": ");
                r.append(message.as_str());
                r
            },
            TurboCdnError::ServerError { status_code, message, .. } => {
                let mut r = owned("Server error ");
                push_decimal(&mut r, *status_code as u64);
                r.append(": ");
                r.append(message.as_str());
                r
            },
            TurboCdnError::Unsupported { message } => concat2("Unsupported operation: ", message.as_str()),
            TurboCdnError::Internal { message } => concat2("Internal error: ", message.as_str()),
        }
    }
}

/// Errors that carry a status code are exactly the HTTP-status and server
/// errors; `from_status_code` keeps the code unless it is 429; 5xx errors
/// are retryable and sent to the next mirror, other client errors are
/// neither, and 404 alone of them moves on to the next mirror.
pub proof fn lemma_status_classification(code: u16, e: TurboCdnError)
    requires
        code >= 500 ==> (e matches TurboCdnError::ServerError { status_code, .. } && status_code == code),
        code < 500 && code != 429 ==> (e matches TurboCdnError::HttpStatus { status_code, .. } && status_code == code),
        code == 429 ==> e is RateLimit,
    ensures
        code != 429 ==> spec_status_code(e) == Some(code),
        spec_is_retryable(e) <==> (code >= 500 || code == 429),
{
}

} // verus!
