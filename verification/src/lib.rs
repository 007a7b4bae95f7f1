//! Ingestion pipeline for newline-delimited JSON transaction records.
//!
//! The library covers the verified core of the pipeline: normalizing raw
//! records into a canonical shape, deduplicating them against a snapshot of
//! already-persisted content hashes, accumulating fixed-size batches, building
//! the multi-row upsert statements, and the adaptive bisection retry policy
//! for statements the store rejects as too large. File and database I/O live
//! outside the library and hand it plain values.

pub mod batch;
pub mod dedup;
pub mod digest;
pub mod json;
pub mod pipeline;
pub mod record;
pub mod scan;
pub mod statement;
pub mod upsert;
