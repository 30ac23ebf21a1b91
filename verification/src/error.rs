//! The error type of the front end.
use vstd::prelude::*;
use vstd::std_specs::convert::FromSpecImpl;

verus! {

/// The error that every fallible operation of the front end reports: a human readable message.
#[derive(Debug)]
pub struct ErrorHandle {
    pub message: String,
}

impl ErrorHandle {
    /// Builds an error carrying a copy of `message`.
    pub fn new(message: &str) -> (r: ErrorHandle)
        ensures
            r.message@ == message@,
    {
        ErrorHandle { message: message.to_string() }
    }
}

impl From<String> for ErrorHandle {
    /// An error whose message is `value`.
    fn from(value: String) -> (r: ErrorHandle) {
        ErrorHandle { message: value }
    }
}

impl FromSpecImpl<String> for ErrorHandle {
    open spec fn obeys_from_spec() -> bool {
        true
    }

    open spec fn from_spec(value: String) -> ErrorHandle {
        ErrorHandle { message: value }
    }
}

} // verus!
