//! Replication between a user's own devices: what changed goes out as an
//! encrypted blob that only the holder of the same secret seed can open, and
//! comes in under a last-write-wins merge.

pub mod delta;
pub mod encryption;
pub mod sync;
