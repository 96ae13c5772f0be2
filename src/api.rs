//! Payloads that the HTTP routes read.
use vstd::prelude::*;

verus! {

/// New display name of a profile.
#[derive(Clone, Debug)]
pub struct Payload {
    pub displayname: String,
}

/// Body of a redaction route.
#[derive(Clone, Debug)]
pub struct RedactEventDto {
    pub reason: Option<String>,
}

/// The event routes of the API.
pub struct Events;

} // verus!
