//! The download methods the smart downloader chooses between.
//!
//! Which method wins is decided from measured speeds, which are floating
//! point; that choice is made by the application.
use vstd::prelude::*;

verus! {

/// Download method type
#[derive(Debug, Clone, Copy, PartialEq, Eq, Structural)]
pub enum DownloadMethod {
    /// Direct download from the original URL
    Direct,
    /// Download through a CDN mirror
    Cdn,
    /// The fastest CDN mirror
    CdnFast,
}

impl DownloadMethod {
    /// The name the method is shown with.
    pub fn name(&self) -> (n: &'static str)
        ensures
            *self == DownloadMethod::Direct ==> n@ == "Direct"@,
            *self == DownloadMethod::Cdn ==> n@ == "CDN"@,
            *self == DownloadMethod::CdnFast ==> n@ == "CDN-Fast"@,
    {
        match self {
            DownloadMethod::Direct => "Direct",
            DownloadMethod::Cdn => "CDN",
            DownloadMethod::CdnFast => "CDN-Fast",
        }
    }
}

} // verus!
