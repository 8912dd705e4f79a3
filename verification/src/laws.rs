//! The round-trip laws of the checked counter arithmetic, stated over the
//! same transitions that the operations' contracts use.

use vstd::prelude::*;
use crate::accounts::{
    global_decremented, global_incremented, user_decremented, user_incremented, GlobalCounter,
    UserCounter,
};

verus! {

/// Law: incrementing the global counter by any amount its count can take,
/// then decrementing by the same amount, is always permitted and restores
/// the prior count exactly, with the authority and the stored bump
/// untouched.
pub proof fn lemma_global_increment_then_decrement_restores(
    g: GlobalCounter,
    amount: u64,
    t1: i64,
    t2: i64,
)
    requires
        g.count + amount <= u64::MAX,
    ensures
        ({
            let g1 = global_incremented(g, amount, t1);
            let g2 = global_decremented(g1, amount, t2);
            &&& amount <= g1.count
            &&& g2.count == g.count
            &&& g2.authority == g.authority
            &&& g2.bump == g.bump
        }),
{
}

/// Law: incrementing a user counter by any amount its count can take, then
/// decrementing by the same amount, is always permitted and restores the
/// prior count exactly, with the owner and the stored bump untouched.
pub proof fn lemma_user_increment_then_decrement_restores(
    u: UserCounter,
    amount: u64,
    t1: i64,
    t2: i64,
)
    requires
        u.count + amount <= u64::MAX,
    ensures
        ({
            let u1 = user_incremented(u, amount, t1);
            let u2 = user_decremented(u1, amount, t2);
            &&& amount <= u1.count
            &&& u2.count == u.count
            &&& u2.owner == u.owner
            &&& u2.bump == u.bump
        }),
{
}

} // verus!
