//! The kinds of servers and of failures the quality scorer distinguishes.
//!
//! Quality and reliability scores are floating point and are kept by the
//! application.
use vstd::prelude::*;

verus! {

/// Server type classification
#[derive(Debug, Clone, Copy, PartialEq, Eq, Structural)]
pub enum ServerType {
    /// Original source server
    Original,
    /// CDN server
    Cdn,
    /// Mirror server
    Mirror,
    /// Proxy server
    Proxy,
    /// Unknown type
    Unknown,
}

/// Types of failures
#[derive(Debug, Clone, Copy, PartialEq, Eq, Structural)]
pub enum FailureType {
    /// Request timeout
    Timeout,
    /// Connection refused
    ConnectionRefused,
    /// DNS resolution failure
    DnsFailure,
    /// HTTP error (4xx, 5xx)
    HttpError,
    /// Network error
    NetworkError,
}

/// Whether a server has failed often enough in a row to fail over from it.
pub fn failures_warrant_failover(consecutive_failures: u32, max_consecutive_failures: u32) -> (r: bool)
    ensures
        r == (consecutive_failures >= max_consecutive_failures),
{
    consecutive_failures >= max_consecutive_failures
}

} // verus!
