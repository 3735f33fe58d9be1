//! The knowledge engine: items, their embeddings, retrieval and ingest.
//!
//! Numbers that the data model keeps in `[0, 1]` (confidence, relevance,
//! similarity, weights, thresholds) are held as millionths in integers, so
//! that every rule on them is exact.

pub mod db;
pub mod digest;
pub mod embedding;
pub mod ingest;
pub mod knowledge;
pub mod query;
pub mod seed;
