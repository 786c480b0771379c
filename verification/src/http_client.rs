//! The response an HTTP request gives, as the library sees it. Requests
//! are made by the application.
use vstd::prelude::*;
use std::collections::HashMap;

verus! {

/// HTTP response structure
#[derive(Debug, Clone)]
pub struct HttpResponse {
    pub status: u16,
    pub headers: HashMap<String, String>,
    pub body: Vec<u8>,
}

} // verus!
