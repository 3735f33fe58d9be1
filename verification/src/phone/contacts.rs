//! Contacts.

use vstd::prelude::*;

verus! {

/// A contact of the device. The thumbnail is Base64 text.
#[derive(Clone, Debug)]
pub struct Contact {
    pub id: String,
    pub name: String,
    pub phone_numbers: Vec<String>,
    pub email: Option<String>,
    pub company: Option<String>,
    pub thumbnail: Option<String>,
}

} // verus!
