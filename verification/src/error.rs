//! The error taxonomy of the state store.

use vstd::prelude::*;

verus! {

/// An error surfaced by a state-store operation.
///
/// `StoreUnavailable` covers every failure to communicate with the backing
/// store (network, authentication, throttling, server fault); it carries a
/// human-readable message. `ParsingError` means the store answered
/// successfully but the response violated the expected shape; only a state
/// lookup can raise it.
#[derive(Debug, PartialEq, Eq)]
pub enum StoreError {
    StoreUnavailable(String),
    ParsingError(String),
}

impl StoreError {
    /// The message carried by the error, whichever kind it is.
    pub fn message(&self) -> (m: &String)
        ensures
            self matches StoreError::StoreUnavailable(s) ==> m == s,
            self matches StoreError::ParsingError(s) ==> m == s,
    {
        match self {
            StoreError::StoreUnavailable(s) => s,
            StoreError::ParsingError(s) => s,
        }
    }
}

} // verus!
