//! Error taxonomy of the scraping pipeline.

use vstd::prelude::*;
use crate::backoff::BackoffError;

verus! {

/// Why a single fetch-and-parse task failed.
#[derive(Debug, Clone, Copy, PartialEq, Eq, Structural)]
pub enum ScrapingError {
    /// Transport failure or a non-retryable HTTP status.
    NetworkError,
    /// The page body was empty or unreadable.
    InvalidPage,
    /// The task exceeded its deadline.
    Timeout,
    /// The retry budget was exhausted.
    MaxRetries,
    /// The page structure did not yield a usable record.
    ParsingErr,
}

impl From<BackoffError> for ScrapingError {
    fn from(err: BackoffError) -> (r: ScrapingError) {
        match err {
            BackoffError::MaxRetries => ScrapingError::MaxRetries,
            BackoffError::Exit => ScrapingError::NetworkError,
        }
    }
}

impl vstd::std_specs::convert::FromSpecImpl<BackoffError> for ScrapingError {
    open spec fn obeys_from_spec() -> bool {
        true
    }

    open spec fn from_spec(err: BackoffError) -> ScrapingError {
        match err {
            BackoffError::MaxRetries => ScrapingError::MaxRetries,
            BackoffError::Exit => ScrapingError::NetworkError,
        }
    }
}

} // verus!
