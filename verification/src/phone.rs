//! Calls and contacts of a phone, as the engine's hosts exchange them.

pub mod call;
pub mod contacts;
