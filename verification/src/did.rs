//! Self-owned identity: an Ed25519 key pair, its `did:key` name, and
//! signatures over knowledge items.

pub mod identity;
pub mod resolver;
pub mod signing;
