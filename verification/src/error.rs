//! The error type reported by every fallible operation of the library.

use vstd::prelude::*;

verus! {

/// Errors surfaced to the caller. No operation recovers internally; a failed
/// `deliver` or `run` leaves the participant unchanged.
#[derive(Debug)]
pub enum Error {
    /// Malformed parameters or an invalid share set at construction.
    InitializationError(String),
    /// A precondition or validation failure during a protocol round.
    RoundError(String),
    /// An error reported by the verifiable-secret-sharing collaborator.
    VsssError(String),
    /// A malformed wire payload.
    SerializationError(String),
}

impl Error {
    /// True for a round error; tests use this to pin the failure kind.
    pub fn is_round_error(&self) -> (r: bool)
        ensures
            r == (self is RoundError),
    {
        match self {
            Error::RoundError(_) => true,
            _ => false,
        }
    }
}

/// Result type used throughout the library.
pub type DkgResult<T> = Result<T, Error>;

} // verus!
