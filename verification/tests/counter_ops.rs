//! Behaviour of the counter operations: initialization, checked
//! arithmetic, authorization, authority transfer and closing.

use counter_ledger::accounts::{GlobalCounter, UserCounter};
use counter_ledger::ctx::{
    CloseUserCounter, DecrementGlobal, DecrementUser, IncrementGlobal, IncrementUser, Initialize,
    InitializeGlobalCounter, InitializeUserCounter, TransferGlobalAuthority,
};
use counter_ledger::errors::CounterError;
use counter_ledger::events::CounterEventType;
use counter_ledger::keys::Pubkey;
use counter_ledger::ledger::Ledger;

fn key(n: u64) -> Pubkey {
    Pubkey { w0: n, w1: 0, w2: 0, w3: 0 }
}

fn global_with(l: &mut Ledger, authority: Pubkey, now: i64) {
    let r = l.initialize_global_counter(
        &InitializeGlobalCounter { authority, bump: 255 },
        now,
    );
    assert_eq!(r, Ok(()));
}

fn user_with(l: &mut Ledger, owner: Pubkey, now: i64) {
    let r = l.initialize_user_counter(&InitializeUserCounter { owner, bump: 254 }, now);
    assert_eq!(r, Ok(()));
}

#[test]
fn fresh_ledger_is_empty() {
    let l = Ledger::new();
    assert_eq!(l.get_global(), None);
    assert_eq!(l.get_user(&key(1)), None);
    assert_eq!(l.global_event_count(), 0);
    assert_eq!(l.user_event_count(), 0);
}

#[test]
fn initialize_global_sets_authority_zero_count_and_emits() {
    let mut l = Ledger::new();
    let a = key(1);
    global_with(&mut l, a, 1000);
    assert_eq!(
        l.get_global(),
        Some(GlobalCounter { authority: a, count: 0, bump: 255, updated_at: 1000 })
    );
    assert_eq!(l.global_event_count(), 1);
    let ev = l.global_event_at(0);
    assert_eq!(ev.event_type, CounterEventType::Initialized);
    assert_eq!(ev.authority, a);
    assert_eq!(ev.count, 0);
    assert_eq!(ev.timestamp, 1000);
}

#[test]
fn initialize_global_twice_fails_and_keeps_first_state() {
    let mut l = Ledger::new();
    let a = key(1);
    global_with(&mut l, a, 1000);
    let r = l.initialize_global_counter(
        &InitializeGlobalCounter { authority: key(2), bump: 9 },
        2000,
    );
    assert_eq!(r, Err(CounterError::AlreadyInitialized));
    assert_eq!(
        l.get_global(),
        Some(GlobalCounter { authority: a, count: 0, bump: 255, updated_at: 1000 })
    );
    assert_eq!(l.global_event_count(), 1);
}

#[test]
fn increment_then_decrement_restores_count_and_authority() {
    let mut l = Ledger::new();
    let a = key(1);
    global_with(&mut l, a, 1000);
    assert_eq!(l.increment_global(&IncrementGlobal { authority: a }, 7, 1100), Ok(()));
    assert_eq!(l.get_global().unwrap().count, 7);
    assert_eq!(l.decrement_global(&DecrementGlobal { authority: a }, 7, 1200), Ok(()));
    let g = l.get_global().unwrap();
    assert_eq!(g.count, 0);
    assert_eq!(g.authority, a);
    assert_eq!(g.bump, 255);
}

#[test]
fn increment_global_overflow_fails_and_changes_nothing() {
    let mut l = Ledger::new();
    let a = key(1);
    global_with(&mut l, a, 1000);
    assert_eq!(
        l.increment_global(&IncrementGlobal { authority: a }, u64::MAX, 1100),
        Ok(())
    );
    let before = l.get_global().unwrap();
    let events_before = l.global_event_count();
    let r = l.increment_global(&IncrementGlobal { authority: a }, 1, 1200);
    assert_eq!(r, Err(CounterError::MathOverflow));
    assert_eq!(l.get_global(), Some(before));
    assert_eq!(l.get_global().unwrap().updated_at, 1100);
    assert_eq!(l.global_event_count(), events_before);
}

#[test]
fn decrement_global_underflow_fails_and_changes_nothing() {
    let mut l = Ledger::new();
    let a = key(1);
    global_with(&mut l, a, 1000);
    let r = l.decrement_global(&DecrementGlobal { authority: a }, 1, 1100);
    assert_eq!(r, Err(CounterError::MathUnderflow));
    assert_eq!(
        l.get_global(),
        Some(GlobalCounter { authority: a, count: 0, bump: 255, updated_at: 1000 })
    );
    assert_eq!(l.global_event_count(), 1);
}

#[test]
fn global_ops_before_initialization_fail_not_found() {
    let mut l = Ledger::new();
    let a = key(1);
    assert_eq!(
        l.increment_global(&IncrementGlobal { authority: a }, 1, 100),
        Err(CounterError::NotFound)
    );
    assert_eq!(
        l.decrement_global(&DecrementGlobal { authority: a }, 1, 100),
        Err(CounterError::NotFound)
    );
    assert_eq!(
        l.transfer_global_authority(&TransferGlobalAuthority { authority: a }, key(2), 100),
        Err(CounterError::NotFound)
    );
    assert_eq!(l.global_event_count(), 0);
}

#[test]
fn unauthorized_global_mutations_fail_with_no_change_and_no_event() {
    let mut l = Ledger::new();
    let a = key(1);
    let stranger = key(9);
    global_with(&mut l, a, 1000);
    assert_eq!(l.increment_global(&IncrementGlobal { authority: a }, 3, 1100), Ok(()));
    let before = l.get_global().unwrap();
    let events_before = l.global_event_count();
    assert_eq!(
        l.increment_global(&IncrementGlobal { authority: stranger }, 1, 1200),
        Err(CounterError::Unauthorized)
    );
    assert_eq!(
        l.decrement_global(&DecrementGlobal { authority: stranger }, 1, 1200),
        Err(CounterError::Unauthorized)
    );
    assert_eq!(
        l.transfer_global_authority(
            &TransferGlobalAuthority { authority: stranger },
            stranger,
            1200
        ),
        Err(CounterError::Unauthorized)
    );
    assert_eq!(l.get_global(), Some(before));
    assert_eq!(l.global_event_count(), events_before);
}

#[test]
fn authority_transfer_scenario() {
    let mut l = Ledger::new();
    let a = key(1);
    let b = key(2);
    global_with(&mut l, a, 1000);
    assert_eq!(l.get_global().unwrap().count, 0);

    assert_eq!(l.increment_global(&IncrementGlobal { authority: a }, 10, 1100), Ok(()));
    assert_eq!(l.get_global().unwrap().count, 10);
    let ev = l.global_event_at(1);
    assert_eq!(ev.event_type, CounterEventType::Incremented);
    assert_eq!(ev.count, 10);

    assert_eq!(
        l.transfer_global_authority(&TransferGlobalAuthority { authority: a }, b, 1200),
        Ok(())
    );
    assert_eq!(l.get_global().unwrap().authority, b);
    // the transfer event reuses the Initialized tag and carries the new
    // authority and the unchanged count
    let ev = l.global_event_at(2);
    assert_eq!(ev.event_type, CounterEventType::Initialized);
    assert_eq!(ev.authority, b);
    assert_eq!(ev.count, 10);

    assert_eq!(
        l.increment_global(&IncrementGlobal { authority: a }, 5, 1300),
        Err(CounterError::Unauthorized)
    );
    assert_eq!(l.get_global().unwrap().count, 10);

    assert_eq!(l.increment_global(&IncrementGlobal { authority: b }, 5, 1400), Ok(()));
    assert_eq!(l.get_global().unwrap().count, 15);
}

#[test]
fn user_counter_saturates_at_max_then_overflow_fails() {
    let mut l = Ledger::new();
    let o = key(5);
    user_with(&mut l, o, 1000);
    assert_eq!(
        l.increment_user(&IncrementUser { user_counter: o, owner: o }, u64::MAX, 1100),
        Ok(())
    );
    assert_eq!(l.get_user(&o).unwrap().count, u64::MAX);
    let r = l.increment_user(&IncrementUser { user_counter: o, owner: o }, 1, 1200);
    assert_eq!(r, Err(CounterError::MathOverflow));
    let u = l.get_user(&o).unwrap();
    assert_eq!(u.count, u64::MAX);
    assert_eq!(u.updated_at, 1100);
}

#[test]
fn user_increment_decrement_exact_counts_and_events() {
    let mut l = Ledger::new();
    let o = key(5);
    user_with(&mut l, o, 1000);
    assert_eq!(
        l.increment_user(&IncrementUser { user_counter: o, owner: o }, 3, 1100),
        Ok(())
    );
    assert_eq!(
        l.decrement_user(&DecrementUser { user_counter: o, owner: o }, 1, 1200),
        Ok(())
    );
    assert_eq!(
        l.get_user(&o),
        Some(UserCounter { owner: o, count: 2, bump: 254, updated_at: 1200 })
    );
    assert_eq!(l.user_event_count(), 3);
    assert_eq!(l.user_event_at(0).event_type, CounterEventType::Initialized);
    assert_eq!(l.user_event_at(1).event_type, CounterEventType::Incremented);
    assert_eq!(l.user_event_at(1).count, 3);
    assert_eq!(l.user_event_at(2).event_type, CounterEventType::Decremented);
    assert_eq!(l.user_event_at(2).count, 2);
    assert_eq!(l.user_event_at(2).owner, o);
}

#[test]
fn user_decrement_underflow_fails_and_changes_nothing() {
    let mut l = Ledger::new();
    let o = key(5);
    user_with(&mut l, o, 1000);
    let before = l.get_user(&o).unwrap();
    let r = l.decrement_user(&DecrementUser { user_counter: o, owner: o }, 1, 1100);
    assert_eq!(r, Err(CounterError::MathUnderflow));
    assert_eq!(l.get_user(&o), Some(before));
    assert_eq!(l.user_event_count(), 1);
}

#[test]
fn initialize_user_twice_fails_and_keeps_first_state() {
    let mut l = Ledger::new();
    let o = key(5);
    user_with(&mut l, o, 1000);
    let r = l.initialize_user_counter(&InitializeUserCounter { owner: o, bump: 7 }, 2000);
    assert_eq!(r, Err(CounterError::AlreadyInitialized));
    assert_eq!(
        l.get_user(&o),
        Some(UserCounter { owner: o, count: 0, bump: 254, updated_at: 1000 })
    );
    assert_eq!(l.user_event_count(), 1);
}

#[test]
fn two_owners_have_independent_records() {
    let mut l = Ledger::new();
    let o1 = key(5);
    let o2 = key(6);
    user_with(&mut l, o1, 1000);
    user_with(&mut l, o2, 1001);
    assert_eq!(
        l.increment_user(&IncrementUser { user_counter: o1, owner: o1 }, 5, 1100),
        Ok(())
    );
    assert_eq!(l.get_user(&o1).unwrap().count, 5);
    assert_eq!(
        l.get_user(&o2),
        Some(UserCounter { owner: o2, count: 0, bump: 254, updated_at: 1001 })
    );
}

#[test]
fn non_owner_mutations_of_a_user_counter_fail_unauthorized() {
    let mut l = Ledger::new();
    let o1 = key(5);
    let stranger = key(6);
    user_with(&mut l, o1, 1000);
    let before = l.get_user(&o1).unwrap();
    let events_before = l.user_event_count();
    assert_eq!(
        l.increment_user(&IncrementUser { user_counter: o1, owner: stranger }, 1, 1100),
        Err(CounterError::Unauthorized)
    );
    assert_eq!(
        l.decrement_user(&DecrementUser { user_counter: o1, owner: stranger }, 1, 1100),
        Err(CounterError::Unauthorized)
    );
    assert_eq!(
        l.close_user_counter(&CloseUserCounter { user_counter: o1, owner: stranger }),
        Err(CounterError::Unauthorized)
    );
    assert_eq!(l.get_user(&o1), Some(before));
    assert_eq!(l.user_event_count(), events_before);
}

#[test]
fn close_then_increment_fails_not_found() {
    let mut l = Ledger::new();
    let o = key(5);
    user_with(&mut l, o, 1000);
    assert_eq!(l.close_user_counter(&CloseUserCounter { user_counter: o, owner: o }), Ok(()));
    assert_eq!(l.get_user(&o), None);
    let r = l.increment_user(&IncrementUser { user_counter: o, owner: o }, 1, 1100);
    assert_eq!(r, Err(CounterError::NotFound));
    // closing emits nothing
    assert_eq!(l.user_event_count(), 1);
}

#[test]
fn close_keeps_other_owners_records() {
    let mut l = Ledger::new();
    let o1 = key(5);
    let o2 = key(6);
    user_with(&mut l, o1, 1000);
    user_with(&mut l, o2, 1001);
    assert_eq!(l.close_user_counter(&CloseUserCounter { user_counter: o1, owner: o1 }), Ok(()));
    assert_eq!(l.get_user(&o1), None);
    assert_eq!(
        l.get_user(&o2),
        Some(UserCounter { owner: o2, count: 0, bump: 254, updated_at: 1001 })
    );
}

#[test]
fn default_records_are_all_zero() {
    let zero = Pubkey { w0: 0, w1: 0, w2: 0, w3: 0 };
    let g = GlobalCounter::default();
    assert_eq!(g, GlobalCounter { authority: zero, count: 0, bump: 0, updated_at: 0 });
    let u = UserCounter::default();
    assert_eq!(u, UserCounter { owner: zero, count: 0, bump: 0, updated_at: 0 });
}

#[test]
fn legacy_initialize_is_a_no_op() {
    let mut l = Ledger::new();
    let a = key(1);
    global_with(&mut l, a, 1000);
    let before = l.get_global().unwrap();
    assert_eq!(l.initialize(&Initialize {}), Ok(()));
    assert_eq!(l.get_global(), Some(before));
    assert_eq!(l.global_event_count(), 1);
    assert_eq!(l.user_event_count(), 0);
}
