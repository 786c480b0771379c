//! Request settings and responses of the HTTP client manager. Requests are
//! made by the application.
use vstd::prelude::*;
use std::time::Duration;
use crate::text::owned;
use crate::time::{duration_from_secs, duration_of_secs};

verus! {

/// HTTP request configuration
#[derive(Debug, Clone)]
pub struct RequestConfig {
    pub url: String,
    pub method: String,
    pub headers: Vec<(String, String)>,
    pub timeout: Duration,
    pub follow_redirects: bool,
    pub max_redirects: u32,
    pub enable_compression: bool,
    pub enable_http2: bool,
}

impl Default for RequestConfig {
    fn default() -> (c: RequestConfig)
        ensures
            c.url@.len() == 0,
            c.method@ == "GET"@,
            c.headers@.len() == 0,
            c.timeout == duration_of_secs(30),
            c.follow_redirects,
            c.max_redirects == 10,
            c.enable_compression,
            c.enable_http2,
    {
        RequestConfig {
            url: String::new(),
            method: owned("GET"),
            headers: Vec::new(),
            timeout: duration_from_secs(30),
            follow_redirects: true,
            max_redirects: 10,
            enable_compression: true,
            enable_http2: true,
        }
    }
}

/// HTTP response wrapper
#[derive(Debug)]
pub struct HttpResponse {
    pub status: u16,
    pub headers: Vec<(String, String)>,
    pub body: Vec<u8>,
    pub response_time: Duration,
    pub content_length: Option<u64>,
    pub supports_ranges: bool,
}

} // verus!
