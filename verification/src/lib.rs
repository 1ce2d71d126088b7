//! Verified core of a share-listing harvester.
//!
//! The crate models the resilient scraping pipeline of a public listing
//! site: a bounded retry/backoff protocol, HTTP outcome classification,
//! security-identifier validation, tolerant locale-aware field parsing,
//! record assembly, and metrics aggregation.  Network and database access
//! live outside the library; the functions here are pure decisions over
//! plain values and carry full contracts.

pub mod backoff;
pub mod dates;
pub mod details;
pub mod errors;
pub mod fetch;
pub mod isin;
pub mod listing;
pub mod metrics;
pub mod numbers;
pub mod page;
pub mod query;
pub mod records;
pub mod text;
