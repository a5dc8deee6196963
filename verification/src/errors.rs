//! The error taxonomy of the service.
//!
//! Every failing operation reports a specific kind, so callers can tell
//! "fix your input" from "you are not the owner" from "the payment did not
//! go through". A failing operation persists nothing and publishes nothing.

use vstd::prelude::*;

verus! {

/// Why an operation was rejected.
#[derive(Clone, Copy, Debug, PartialEq, Eq, Structural)]
pub enum ErrorCode {
    /// The number of cards requested is zero or greater than ten.
    InvalidCardCount,
    /// The question text is empty.
    EmptyQuestion,
    /// The caller is not the owner of the reading.
    Unauthorized,
    /// The value-transfer rail declined to move the funds.
    TransferFailed,
}

} // verus!
