//! The error taxonomy. Every failure aborts the whole operation with zero
//! observable side effects: no field mutated, no event emitted, no slot
//! created or freed.

use vstd::prelude::*;

verus! {

/// Why an operation was refused. All variants are surfaced verbatim to the
/// caller; none is retryable and none is recovered from internally.
#[derive(Clone, Copy, PartialEq, Eq, Structural, Debug)]
pub enum CounterError {
    /// A checked addition would exceed `u64::MAX`.
    MathOverflow,
    /// A checked subtraction would go below zero.
    MathUnderflow,
    /// Creation was requested for a slot that is already occupied.
    AlreadyInitialized,
    /// The caller is not the recorded authority or owner of the slot.
    Unauthorized,
    /// The referenced account does not exist. The host's store surfaces
    /// this one, but it is handled like every core failure: abort, no
    /// mutation.
    NotFound,
}

} // verus!
