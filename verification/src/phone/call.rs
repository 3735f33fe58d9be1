//! Phone calls.

use vstd::prelude::*;

verus! {

/// The state of a call.
#[derive(Clone, Copy, Debug, PartialEq, Eq, Structural)]
pub enum CallState {
    Idle,
    Dialing,
    Active,
    Ended,
}

/// A call with its metadata. Times are RFC 3339 strings.
#[derive(Clone, Debug)]
pub struct CallRecord {
    pub phone_number: String,
    pub contact_name: Option<String>,
    pub state: CallState,
    pub started_at: Option<String>,
    pub ended_at: Option<String>,
    pub duration_seconds: u32,
    pub recording_path: Option<String>,
}

} // verus!
