//! A verified client core for a paginated REST resource collection.
//!
//! The crate contains the logic of a bulk-ingest pipeline: planning the
//! paginated list requests that cover a collection, classifying the outcome
//! of each detail request, aggregating the retrieved records across workers,
//! and framing the aggregated result as a JSON document.  All network and
//! file I/O stays outside the crate; callers hand in the response bodies and
//! take plain values back.

pub mod cli;
pub mod decimal;
pub mod errors;
pub mod fetcher;
pub mod ingest;
pub mod json;
pub mod models;
pub mod paginator;

pub use errors::FetchError;
