//! Operation contexts: the claimed identity, and for creations the
//! derivation bump, that the host hands to an operation after verifying the
//! caller's signature and resolving the derived addresses. The operations
//! themselves re-check that the claimed identity matches the record it
//! wants to mutate.

use vstd::prelude::*;
use crate::keys::Pubkey;

verus! {

/// Context of the legacy greeting operation, which touches nothing.
#[derive(Clone, Copy, PartialEq, Eq, Structural, Debug)]
pub struct Initialize {}

/// Context for creating the global counter: the caller, who becomes the
/// authority, and the discriminator byte of the derived global slot.
#[derive(Clone, Copy, PartialEq, Eq, Structural, Debug)]
pub struct InitializeGlobalCounter {
    pub authority: Pubkey,
    pub bump: u8,
}

/// Context for creating the caller's user counter: the caller, who becomes
/// the owner, and the discriminator byte of the caller's derived slot.
#[derive(Clone, Copy, PartialEq, Eq, Structural, Debug)]
pub struct InitializeUserCounter {
    pub owner: Pubkey,
    pub bump: u8,
}

/// Context for incrementing the global counter.
#[derive(Clone, Copy, PartialEq, Eq, Structural, Debug)]
pub struct IncrementGlobal {
    pub authority: Pubkey,
}

/// Context for decrementing the global counter.
#[derive(Clone, Copy, PartialEq, Eq, Structural, Debug)]
pub struct DecrementGlobal {
    pub authority: Pubkey,
}

/// Context for incrementing a user counter: the owner key whose derived
/// slot is targeted, and the caller who claims to own it.
#[derive(Clone, Copy, PartialEq, Eq, Structural, Debug)]
pub struct IncrementUser {
    pub user_counter: Pubkey,
    pub owner: Pubkey,
}

/// Context for decrementing a user counter: the owner key whose derived
/// slot is targeted, and the caller who claims to own it.
#[derive(Clone, Copy, PartialEq, Eq, Structural, Debug)]
pub struct DecrementUser {
    pub user_counter: Pubkey,
    pub owner: Pubkey,
}

/// Context for reassigning the global counter's authority.
#[derive(Clone, Copy, PartialEq, Eq, Structural, Debug)]
pub struct TransferGlobalAuthority {
    pub authority: Pubkey,
}

/// Context for closing a user counter: the owner key whose derived slot is
/// targeted, and the caller who claims to own it.
#[derive(Clone, Copy, PartialEq, Eq, Structural, Debug)]
pub struct CloseUserCounter {
    pub user_counter: Pubkey,
    pub owner: Pubkey,
}

} // verus!
