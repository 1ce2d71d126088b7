//! HTTP fetch outcome classification.
//!
//! The page fetcher retries one GET per attempt under the backoff
//! driver.  The classification of each attempt is fixed policy: 200 is
//! success; 429, 500, 502, 503 and 504 — the codes the target site sends
//! when overloaded — are transient; every other status, like every
//! transport failure, is fatal.  A successful fetch with an empty body is
//! an invalid page, never a usable one.

use vstd::prelude::*;
use crate::errors::ScrapingError;

verus! {

/// What one HTTP status means for the retry protocol.
#[derive(Debug, Clone, Copy, PartialEq, Eq, Structural)]
pub enum StatusClass {
    /// The page arrived; stop retrying and use the body.
    Success,
    /// The site is temporarily rejecting requests; retry after a delay.
    Transient,
    /// A page-level failure nothing will fix; stop at once.
    Fatal,
}

/// The fixed status classification policy.
pub open spec fn spec_classify_status(status: u16) -> StatusClass {
    if status == 200 {
        StatusClass::Success
    } else if status == 429 || status == 500 || status == 502 || status == 503 || status == 504 {
        StatusClass::Transient
    } else {
        StatusClass::Fatal
    }
}

/// Classifies an HTTP status code.
pub fn classify_status(status: u16) -> (r: StatusClass)
    ensures
        r == spec_classify_status(status),
{
    if status == 200 {
        StatusClass::Success
    } else if status == 429 || status == 500 || status == 502 || status == 503 || status == 504 {
        StatusClass::Transient
    } else {
        StatusClass::Fatal
    }
}

/// Accepts a fetched body: an empty body is an invalid page, anything
/// else passes through unchanged.
pub fn check_page_text(text: String) -> (r: Result<String, ScrapingError>)
    ensures
        match r {
            Ok(t) => text@.len() > 0 && t == text,
            Err(e) => text@.len() == 0 && e == ScrapingError::InvalidPage,
        },
{
    if text.as_str().is_empty() {
        Err(ScrapingError::InvalidPage)
    } else {
        Ok(text)
    }
}

} // verus!
