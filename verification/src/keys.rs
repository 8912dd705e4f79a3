//! Public-key identities.
//!
//! Every account in the service is gated by a 32-byte public key: the
//! `authority` of the global counter or the `owner` of a user counter. The
//! service itself never inspects a key beyond comparing it for equality and
//! handing its bytes to the host's address derivation, so a key is held here
//! as four 64-bit little-endian words.

use vstd::prelude::*;
use vstd::bytes::{spec_u64_from_le_bytes, spec_u64_to_le_bytes, u64_from_le_bytes, u64_to_le_bytes};
use vstd::slice::slice_subrange;

verus! {

/// A 32-byte public-key identity, held as four 64-bit little-endian words
/// (`w0` holds bytes 0..8 of the key, `w3` bytes 24..32).
#[derive(Clone, Copy, PartialEq, Eq, Structural, Debug)]
pub struct Pubkey {
    pub w0: u64,
    pub w1: u64,
    pub w2: u64,
    pub w3: u64,
}

/// The 32 bytes of a key, in order.
pub open spec fn key_le_bytes(k: Pubkey) -> Seq<u8> {
    spec_u64_to_le_bytes(k.w0) + spec_u64_to_le_bytes(k.w1) + spec_u64_to_le_bytes(k.w2)
        + spec_u64_to_le_bytes(k.w3)
}

impl Pubkey {
    /// Pack the key into its 32 bytes.
    pub fn to_bytes(&self) -> (r: Vec<u8>)
        ensures
            r@ == key_le_bytes(*self),
    {
        let mut r = u64_to_le_bytes(self.w0);
        let mut r1 = u64_to_le_bytes(self.w1);
        let mut r2 = u64_to_le_bytes(self.w2);
        let mut r3 = u64_to_le_bytes(self.w3);
        r.append(&mut r1);
        r.append(&mut r2);
        r.append(&mut r3);
        r
    }

    /// Read a key back from its 32 bytes.
    pub fn from_bytes(s: &[u8]) -> (r: Pubkey)
        requires
            s@.len() == 32,
        ensures
            r.w0 == spec_u64_from_le_bytes(s@.subrange(0, 8)),
            r.w1 == spec_u64_from_le_bytes(s@.subrange(8, 16)),
            r.w2 == spec_u64_from_le_bytes(s@.subrange(16, 24)),
            r.w3 == spec_u64_from_le_bytes(s@.subrange(24, 32)),
    {
        Pubkey {
            w0: u64_from_le_bytes(slice_subrange(s, 0, 8)),
            w1: u64_from_le_bytes(slice_subrange(s, 8, 16)),
            w2: u64_from_le_bytes(slice_subrange(s, 16, 24)),
            w3: u64_from_le_bytes(slice_subrange(s, 24, 32)),
        }
    }
}

} // verus!
