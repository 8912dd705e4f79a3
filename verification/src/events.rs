//! Event records. Every state-changing operation appends one structured
//! record to an append-only log; a failed operation appends nothing.

use vstd::prelude::*;
use crate::keys::Pubkey;

verus! {

/// Which transition an event records. An authority transfer reuses the
/// `Initialized` tag: no dedicated authority-change tag exists.
#[derive(Clone, Copy, PartialEq, Eq, Structural, Debug)]
pub enum CounterEventType {
    Initialized,
    Incremented,
    Decremented,
}

/// A change to the global counter: the transition kind, the authority after
/// the change, the count after the change, and the time of the change.
#[derive(Clone, Copy, PartialEq, Eq, Structural, Debug)]
pub struct GlobalCounterEvent {
    pub event_type: CounterEventType,
    pub authority: Pubkey,
    pub count: u64,
    pub timestamp: i64,
}

/// A change to one user counter: the transition kind, the owner, the count
/// after the change, and the time of the change.
#[derive(Clone, Copy, PartialEq, Eq, Structural, Debug)]
pub struct UserCounterEvent {
    pub event_type: CounterEventType,
    pub owner: Pubkey,
    pub count: u64,
    pub timestamp: i64,
}

} // verus!
