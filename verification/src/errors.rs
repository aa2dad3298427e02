//! The error taxonomy of the client.

use vstd::prelude::*;

verus! {

/// What went wrong while fetching or aggregating data.
///
/// Transport failures and malformed bodies are distinguished so that the
/// orchestrator can skip an individual item while letting a batch complete;
/// `InvalidArgument` rejects bad pagination parameters before any request is
/// planned; `Io` and `Concurrency` cover a failed output write and a poisoned
/// shared-state lock, both of which the caller treats as fatal.
#[derive(Debug, Clone, Copy, PartialEq, Eq, Structural)]
pub enum FetchError {
    /// A connection, timeout, or non-success status failure.
    Network,
    /// The body was not valid JSON or did not match the expected shape.
    Parse,
    /// Bad pagination parameters.
    InvalidArgument,
    /// The output file could not be created or written.
    Io,
    /// Shared state was found in a poisoned or inconsistent state.
    Concurrency,
}

impl FetchError {
    /// A short description of the error, suitable for reporting to the user.
    pub fn message(&self) -> (r: String)
        ensures
            self is Network ==> r@ == "Network error"@,
            self is Parse ==> r@ == "Parsing error"@,
            self is InvalidArgument ==> r@ == "Invalid argument error"@,
            self is Io ==> r@ == "I/O error"@,
            self is Concurrency ==> r@ == "Concurrency error"@,
    {
        match self {
            FetchError::Network => String::from_str("Network error"),
            FetchError::Parse => String::from_str("Parsing error"),
            FetchError::InvalidArgument => String::from_str("Invalid argument error"),
            FetchError::Io => String::from_str("I/O error"),
            FetchError::Concurrency => String::from_str("Concurrency error"),
        }
    }
}

} // verus!
