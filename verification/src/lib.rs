//! A local knowledge engine: knowledge items with their embeddings, hybrid
//! and dialectic retrieval over them, a self-owned identity that signs them,
//! and encrypted sync between the devices of one user.
//!
//! The engine decides; the host reads and writes. Rows come in as plain
//! values and plans go out: which rows a search admits and how they rank,
//! which items an ingest creates, whether an incoming row wins a merge, what
//! a signature covers, how an envelope is sealed. Every function states
//! what it returns, and the statement is proved.

pub mod did;
pub mod encoding;
pub mod error;
pub mod phone;
pub mod primitives;
pub mod rag;
pub mod sync;
pub mod text;
