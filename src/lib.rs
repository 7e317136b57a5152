//! Decoding of the JSON documents that reach a serverless function into typed events, and
//! encoding of the HTTP-shaped responses it sends back.
//!
//! A document is a [`json::Json`] tree. [`data::Event::decode`] resolves it to exactly one event
//! shape, trying a fixed order and keeping a document of no known shape whole; each service's
//! payload has its own decoder under [`data`], whose contract states what every field holds.
//! Where a producer has changed a schema over time, the decoders follow the later one: API
//! Gateway requests with mappings that default to empty, for instance.
use vstd::prelude::*;

pub mod json;
pub mod map;
pub mod time;
pub mod data;

verus! {

/// Error raised while reading the host's context object.
pub enum ContextError {
    /// The remaining execution time could not be obtained from the host.
    GetRemainingTimeFailed,
}

impl ContextError {
    /// A short human-readable description of the error.
    pub fn description(&self) -> (r: String)
        ensures
            r@ == context_error_text(*self),
    {
        match self {
            ContextError::GetRemainingTimeFailed => String::from_str("failed to call get_remaining_time_in_millis"),
        }
    }
}

pub open spec fn context_error_text(e: ContextError) -> Seq<char> {
    match e {
        ContextError::GetRemainingTimeFailed => "failed to call get_remaining_time_in_millis"@,
    }
}

} // verus!
