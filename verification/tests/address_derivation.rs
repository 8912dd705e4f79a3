//! Behaviour of the address derivation: determinism, distinct slots for
//! distinct owners, and the namespace separation between the two account
//! kinds.

use counter_ledger::address::{global_counter_address, user_counter_address};
use counter_ledger::ctx::{InitializeGlobalCounter, InitializeUserCounter};
use counter_ledger::keys::Pubkey;
use counter_ledger::ledger::Ledger;

fn key(n: u64) -> Pubkey {
    Pubkey { w0: n, w1: n.wrapping_mul(3), w2: 0, w3: n }
}

#[test]
fn derivation_is_deterministic() {
    let program = key(77);
    let owner = key(5);
    let a = user_counter_address(&owner, &program);
    let b = user_counter_address(&owner, &program);
    assert!(a.is_some());
    assert_eq!(a, b);
    let g1 = global_counter_address(&program);
    let g2 = global_counter_address(&program);
    assert!(g1.is_some());
    assert_eq!(g1, g2);
}

#[test]
fn distinct_owners_get_distinct_slots() {
    let program = key(77);
    let (a1, _) = user_counter_address(&key(5), &program).unwrap();
    let (a2, _) = user_counter_address(&key(6), &program).unwrap();
    assert_ne!(a1, a2);
}

#[test]
fn global_and_user_namespaces_never_collide() {
    let program = key(77);
    let (g, _) = global_counter_address(&program).unwrap();
    let (u, _) = user_counter_address(&key(5), &program).unwrap();
    assert_ne!(g, u);
}

#[test]
fn derived_slot_differs_from_its_inputs() {
    let program = key(77);
    let owner = key(5);
    let (addr, _) = user_counter_address(&owner, &program).unwrap();
    assert_ne!(addr, owner);
    assert_ne!(addr, program);
}

#[test]
fn initialization_stores_the_derived_bump() {
    let program = key(77);
    let authority = key(1);
    let owner = key(5);
    let (_, global_bump) = global_counter_address(&program).unwrap();
    let (_, user_bump) = user_counter_address(&owner, &program).unwrap();
    let mut l = Ledger::new();
    assert_eq!(
        l.initialize_global_counter(
            &InitializeGlobalCounter { authority, bump: global_bump },
            1000
        ),
        Ok(())
    );
    assert_eq!(
        l.initialize_user_counter(&InitializeUserCounter { owner, bump: user_bump }, 1000),
        Ok(())
    );
    assert_eq!(l.get_global().unwrap().bump, global_bump);
    assert_eq!(l.get_user(&owner).unwrap().bump, user_bump);
}

#[test]
fn key_bytes_round_trip() {
    let k = Pubkey { w0: 1, w1: u64::MAX, w2: 1234567890123456789, w3: 42 };
    let bytes = k.to_bytes();
    assert_eq!(bytes.len(), 32);
    let back = Pubkey::from_bytes(&bytes);
    assert_eq!(back, k);
}
