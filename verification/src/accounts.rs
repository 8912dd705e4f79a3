//! The two account records, and the transitions that the operations apply
//! to them. Each record is a fixed-size struct: identity key (32 bytes),
//! count (8-byte unsigned), derivation bump (1 byte) and timestamp (8-byte
//! signed), behind a fixed discriminator prefix, so the host can
//! preallocate exact storage at creation time.

use vstd::prelude::*;
use crate::keys::Pubkey;

verus! {

/// The singleton global counter record.
#[derive(Clone, Copy, PartialEq, Eq, Structural, Debug)]
pub struct GlobalCounter {
    /// The identity permitted to mutate this record or reassign the
    /// permission itself.
    pub authority: Pubkey,
    /// The current count. It rises and falls only through checked
    /// arithmetic; it never wraps.
    pub count: u64,
    /// The discriminator byte of the record's canonical derived address,
    /// stored so the address can be re-derived later.
    pub bump: u8,
    /// Host-clock time of the last mutation.
    pub updated_at: i64,
}

impl GlobalCounter {
    /// Persisted size: discriminator prefix (8) + key (32) + count (8) +
    /// bump (1) + timestamp (8).
    pub const LEN: usize = 8 + 32 + 8 + 1 + 8;
}

impl Default for GlobalCounter {
    /// The all-zero record that a freshly allocated slot holds before
    /// initialization fills it.
    fn default() -> (r: Self)
        ensures
            r == (GlobalCounter {
                authority: Pubkey { w0: 0, w1: 0, w2: 0, w3: 0 },
                count: 0,
                bump: 0,
                updated_at: 0,
            }),
    {
        GlobalCounter {
            authority: Pubkey { w0: 0, w1: 0, w2: 0, w3: 0 },
            count: 0,
            bump: 0,
            updated_at: 0,
        }
    }
}

/// One per-owner counter record. Same shape as the global record, with an
/// immutable `owner` in place of the reassignable `authority`.
#[derive(Clone, Copy, PartialEq, Eq, Structural, Debug)]
pub struct UserCounter {
    /// The identity permitted to mutate this record; fixed at creation, as
    /// no transfer operation exists for user counters.
    pub owner: Pubkey,
    /// The current count, under the same checked arithmetic as the global
    /// one.
    pub count: u64,
    /// The discriminator byte of the record's canonical derived address.
    pub bump: u8,
    /// Host-clock time of the last mutation.
    pub updated_at: i64,
}

impl UserCounter {
    /// Persisted size: discriminator prefix (8) + key (32) + count (8) +
    /// bump (1) + timestamp (8).
    pub const LEN: usize = 8 + 32 + 8 + 1 + 8;
}

impl Default for UserCounter {
    /// The all-zero record that a freshly allocated slot holds before
    /// initialization fills it.
    fn default() -> (r: Self)
        ensures
            r == (UserCounter {
                owner: Pubkey { w0: 0, w1: 0, w2: 0, w3: 0 },
                count: 0,
                bump: 0,
                updated_at: 0,
            }),
    {
        UserCounter {
            owner: Pubkey { w0: 0, w1: 0, w2: 0, w3: 0 },
            count: 0,
            bump: 0,
            updated_at: 0,
        }
    }
}

/// The global record as creation leaves it: the caller as authority, a
/// zero count, the stored derivation bump, and the creation time.
pub open spec fn global_initialized(authority: Pubkey, bump: u8, now: i64) -> GlobalCounter {
    GlobalCounter { authority, count: 0, bump, updated_at: now }
}

/// The global record after a successful increment by `amount` at `now`.
pub open spec fn global_incremented(g: GlobalCounter, amount: u64, now: i64) -> GlobalCounter
    recommends
        g.count + amount <= u64::MAX,
{
    GlobalCounter { count: (g.count + amount) as u64, updated_at: now, ..g }
}

/// The global record after a successful decrement by `amount` at `now`.
pub open spec fn global_decremented(g: GlobalCounter, amount: u64, now: i64) -> GlobalCounter
    recommends
        amount <= g.count,
{
    GlobalCounter { count: (g.count - amount) as u64, updated_at: now, ..g }
}

/// The global record after its authority is reassigned at `now`. The count
/// and the stored bump are untouched.
pub open spec fn global_reauthorized(g: GlobalCounter, new_authority: Pubkey, now: i64) -> GlobalCounter {
    GlobalCounter { authority: new_authority, updated_at: now, ..g }
}

/// A user record as creation leaves it.
pub open spec fn user_initialized(owner: Pubkey, bump: u8, now: i64) -> UserCounter {
    UserCounter { owner, count: 0, bump, updated_at: now }
}

/// A user record after a successful increment by `amount` at `now`.
pub open spec fn user_incremented(u: UserCounter, amount: u64, now: i64) -> UserCounter
    recommends
        u.count + amount <= u64::MAX,
{
    UserCounter { count: (u.count + amount) as u64, updated_at: now, ..u }
}

/// A user record after a successful decrement by `amount` at `now`.
pub open spec fn user_decremented(u: UserCounter, amount: u64, now: i64) -> UserCounter
    recommends
        amount <= u.count,
{
    UserCounter { count: (u.count - amount) as u64, updated_at: now, ..u }
}

} // verus!
