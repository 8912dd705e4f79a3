//! The account state machine. A `Ledger` stands for the host's key-value
//! store as this program sees it: one slot for the global counter, one slot
//! per owner key for user counters, and the append-only event logs. Every
//! operation executes as one atomic step against at most one record: it
//! either completes fully, or fails with an error and no observable change.

use vstd::prelude::*;
use crate::accounts::{
    global_decremented, global_incremented, global_initialized, global_reauthorized,
    user_decremented, user_incremented, user_initialized, GlobalCounter, UserCounter,
};
use crate::ctx::{
    CloseUserCounter, DecrementGlobal, DecrementUser, IncrementGlobal, IncrementUser, Initialize,
    InitializeGlobalCounter, InitializeUserCounter, TransferGlobalAuthority,
};
use crate::errors::CounterError;
use crate::events::{CounterEventType, GlobalCounterEvent, UserCounterEvent};
use crate::keys::Pubkey;

verus! {

/// The persistent state of one deployment of the counter service.
pub struct Ledger {
    global: Option<GlobalCounter>,
    users: Vec<UserCounter>,
    global_events: Vec<GlobalCounterEvent>,
    user_events: Vec<UserCounterEvent>,
}

impl Ledger {
    /// The global-counter slot: occupied or empty.
    pub closed spec fn global_view(self) -> Option<GlobalCounter> {
        self.global
    }

    /// Whether `owner` has a user-counter record.
    pub closed spec fn has_user(self, owner: Pubkey) -> bool {
        exists|i: int| 0 <= i < self.users@.len() && (#[trigger] self.users@[i]).owner == owner
    }

    /// The index of `owner`'s record among the stored user records.
    pub closed spec fn user_slot(self, owner: Pubkey) -> int {
        choose|i: int| 0 <= i < self.users@.len() && (#[trigger] self.users@[i]).owner == owner
    }

    /// The user-counter slot of `owner`: occupied or empty.
    pub closed spec fn user_view(self, owner: Pubkey) -> Option<UserCounter> {
        if self.has_user(owner) {
            Some(self.users@[self.user_slot(owner)])
        } else {
            None
        }
    }

    /// The emitted global-counter events, oldest first.
    pub closed spec fn global_log(self) -> Seq<GlobalCounterEvent> {
        self.global_events@
    }

    /// The emitted user-counter events, oldest first.
    pub closed spec fn user_log(self) -> Seq<UserCounterEvent> {
        self.user_events@
    }

    /// Validity: at most one record per distinct owner key.
    pub closed spec fn wf(self) -> bool {
        forall|i: int, j: int|
            0 <= i < j < self.users@.len() ==> (#[trigger] self.users@[i]).owner != (
            #[trigger] self.users@[j]).owner
    }

    /// Nothing observable distinguishes `self` from `pre`: both counter
    /// slots, every user slot and both event logs agree.
    pub open spec fn unchanged_from(self, pre: Ledger) -> bool {
        &&& self.global_view() == pre.global_view()
        &&& forall|k: Pubkey| self.user_view(k) == pre.user_view(k)
        &&& self.global_log() == pre.global_log()
        &&& self.user_log() == pre.user_log()
    }

    /// A fresh deployment: no slot occupied, no event emitted.
    pub fn new() -> (r: Ledger)
        ensures
            r.wf(),
            r.global_view() is None,
            forall|k: Pubkey| r.user_view(k) is None,
            r.global_log().len() == 0,
            r.user_log().len() == 0,
    {
        Ledger {
            global: None,
            users: Vec::new(),
            global_events: Vec::new(),
            user_events: Vec::new(),
        }
    }

    /// The record at index `i` is the one and only record of its owner.
    proof fn lemma_user_at(self, i: int)
        requires
            self.wf(),
            0 <= i < self.users@.len(),
        ensures
            self.has_user(self.users@[i].owner),
            self.user_slot(self.users@[i].owner) == i,
            self.user_view(self.users@[i].owner) == Some(self.users@[i]),
    {
        let owner = self.users@[i].owner;
        assert(self.has_user(owner));
        let j = self.user_slot(owner);
        assert(0 <= j < self.users@.len() && self.users@[j].owner == owner);
        if i < j {
            assert(self.users@[i].owner != self.users@[j].owner);
        } else if j < i {
            assert(self.users@[j].owner != self.users@[i].owner);
        }
    }

    /// Find the index of `owner`'s record, if any.
    fn find_user(&self, owner: &Pubkey) -> (r: Option<usize>)
        requires
            self.wf(),
        ensures
            match r {
                Some(i) => i < self.users@.len() && self.users@[i as int].owner == *owner
                    && self.user_view(*owner) == Some(self.users@[i as int]),
                None => self.user_view(*owner) is None,
            },
    {
        let n: usize = self.users.len();
        let mut i: usize = 0;
        while i < n
            invariant
                n == self.users@.len(),
                i <= n,
                self.wf(),
                forall|j: int| 0 <= j < i ==> (#[trigger] self.users@[j]).owner != *owner,
            decreases n - i,
        {
            if self.users[i].owner == *owner {
                proof {
                    self.lemma_user_at(i as int);
                }
                return Some(i);
            }
            i += 1;
        }
        assert(!self.has_user(*owner));
        None
    }

    /// Two ledgers with the same user records agree on every user slot.
    proof fn lemma_same_users_same_views(self, other: Ledger)
        requires
            self.wf(),
            self.users@ == other.users@,
        ensures
            forall|k: Pubkey| self.user_view(k) == other.user_view(k),
    {
        assert forall|k: Pubkey| self.user_view(k) == other.user_view(k) by {
            if self.has_user(k) {
                let i = self.user_slot(k);
                assert(0 <= i < self.users@.len() && self.users@[i].owner == k);
                assert(other.users@[i].owner == k);
                self.lemma_user_at(i);
                other.lemma_user_at(i);
            } else if other.has_user(k) {
                let i = other.user_slot(k);
                assert(other.users@[i].owner == k);
                assert(self.users@[i].owner == k);
                assert(self.has_user(k));
            }
        }
    }

    /// Replacing the record at `idx` with one of the same owner leaves
    /// every other slot as it was.
    proof fn lemma_views_after_update(pre: Ledger, post: Ledger, idx: int, rec: UserCounter)
        requires
            pre.wf(),
            0 <= idx < pre.users@.len(),
            rec.owner == pre.users@[idx].owner,
            post.users@ == pre.users@.update(idx, rec),
        ensures
            post.wf(),
            post.user_view(rec.owner) == Some(rec),
            forall|k: Pubkey| k != rec.owner ==> post.user_view(k) == pre.user_view(k),
    {
        assert forall|i: int, j: int|
            0 <= i < j < post.users@.len() implies post.users@[i].owner != post.users@[j].owner by {
            assert(pre.users@[i].owner != pre.users@[j].owner);
        }
        post.lemma_user_at(idx);
        assert forall|k: Pubkey| k != rec.owner implies post.user_view(k) == pre.user_view(k) by {
            if pre.has_user(k) {
                let i = pre.user_slot(k);
                assert(0 <= i < pre.users@.len() && pre.users@[i].owner == k);
                assert(i != idx);
                assert(post.users@[i].owner == k);
                pre.lemma_user_at(i);
                post.lemma_user_at(i);
            } else if post.has_user(k) {
                let i = post.user_slot(k);
                assert(post.users@[i].owner == k);
                assert(i != idx);
                assert(pre.users@[i].owner == k);
                assert(pre.has_user(k));
            }
        }
    }

    /// Appending a record for a fresh owner fills exactly that owner's
    /// slot and no other.
    proof fn lemma_views_after_push(pre: Ledger, post: Ledger, rec: UserCounter)
        requires
            pre.wf(),
            !pre.has_user(rec.owner),
            post.users@ == pre.users@.push(rec),
        ensures
            post.wf(),
            post.user_view(rec.owner) == Some(rec),
            forall|k: Pubkey| k != rec.owner ==> post.user_view(k) == pre.user_view(k),
    {
        let n = pre.users@.len() as int;
        assert forall|i: int, j: int|
            0 <= i < j < post.users@.len() implies post.users@[i].owner != post.users@[j].owner by {
            if j < n {
                assert(pre.users@[i].owner != pre.users@[j].owner);
            } else {
                assert(post.users@[j] == rec);
                assert(post.users@[i] == pre.users@[i]);
            }
        }
        post.lemma_user_at(n);
        assert forall|k: Pubkey| k != rec.owner implies post.user_view(k) == pre.user_view(k) by {
            if pre.has_user(k) {
                let i = pre.user_slot(k);
                assert(0 <= i < n && pre.users@[i].owner == k);
                assert(post.users@[i].owner == k);
                pre.lemma_user_at(i);
                post.lemma_user_at(i);
            } else if post.has_user(k) {
                let i = post.user_slot(k);
                assert(post.users@[i].owner == k);
                assert(i < n);
                assert(pre.users@[i].owner == k);
                assert(pre.has_user(k));
            }
        }
    }

    /// Removing the record at `idx` empties exactly its owner's slot and
    /// no other.
    proof fn lemma_views_after_remove(pre: Ledger, post: Ledger, idx: int)
        requires
            pre.wf(),
            0 <= idx < pre.users@.len(),
            post.users@ == pre.users@.remove(idx),
        ensures
            post.wf(),
            post.user_view(pre.users@[idx].owner) is None,
            forall|k: Pubkey| k != pre.users@[idx].owner ==> post.user_view(k) == pre.user_view(k),
    {
        let gone = pre.users@[idx].owner;
        let n = pre.users@.len() as int;
        assert(post.users@.len() == n - 1);
        assert forall|j: int| 0 <= j < n - 1 implies post.users@[j] == (if j < idx {
            pre.users@[j]
        } else {
            pre.users@[j + 1]
        }) by {}
        assert forall|i: int, j: int|
            0 <= i < j < post.users@.len() implies post.users@[i].owner != post.users@[j].owner by {}
        if post.has_user(gone) {
            let i = post.user_slot(gone);
            assert(post.users@[i].owner == gone);
            if i < idx {
                assert(pre.users@[i].owner != pre.users@[idx].owner);
            } else {
                assert(pre.users@[i + 1].owner != pre.users@[idx].owner);
            }
        }
        assert forall|k: Pubkey| k != gone implies post.user_view(k) == pre.user_view(k) by {
            if pre.has_user(k) {
                let i = pre.user_slot(k);
                assert(0 <= i < n && pre.users@[i].owner == k);
                assert(i != idx);
                let i2: int = if i < idx { i } else { i - 1 };
                assert(post.users@[i2].owner == k);
                pre.lemma_user_at(i);
                post.lemma_user_at(i2);
            } else if post.has_user(k) {
                let i = post.user_slot(k);
                assert(post.users@[i].owner == k);
                let i2: int = if i < idx { i } else { i + 1 };
                assert(pre.users@[i2].owner == k);
                assert(pre.has_user(k));
            }
        }
    }
}

impl Ledger {
    /// Create the singleton global counter with the caller as authority, a
    /// zero count and the stored derivation bump, and emit an `Initialized`
    /// event. Fails with `AlreadyInitialized`, changing nothing, when the
    /// slot is already occupied.
    pub fn initialize_global_counter(
        &mut self,
        ctx: &InitializeGlobalCounter,
        now: i64,
    ) -> (r: Result<(), CounterError>)
        requires
            old(self).wf(),
        ensures
            final(self).wf(),
            r is Ok <==> old(self).global_view() is None,
            r is Err ==> r == Err::<(), CounterError>(CounterError::AlreadyInitialized)
                && final(self).unchanged_from(*old(self)),
            r is Ok ==> {
                &&& final(self).global_view() == Some(
                    global_initialized(ctx.authority, ctx.bump, now),
                )
                &&& forall|k: Pubkey| final(self).user_view(k) == old(self).user_view(k)
                &&& final(self).global_log() == old(self).global_log().push(
                    (GlobalCounterEvent {
                        event_type: CounterEventType::Initialized,
                        authority: ctx.authority,
                        count: 0,
                        timestamp: now,
                    }),
                )
                &&& final(self).user_log() == old(self).user_log()
            },
    {
        if self.global.is_some() {
            return Err(CounterError::AlreadyInitialized);
        }
        self.global = Some(GlobalCounter { authority: ctx.authority, count: 0, bump: ctx.bump, updated_at: now });
        self.global_events.push(GlobalCounterEvent {
            event_type: CounterEventType::Initialized,
            authority: ctx.authority,
            count: 0,
            timestamp: now,
        });
        proof {
            old(self).lemma_same_users_same_views(*self);
        }
        Ok(())
    }

    /// Create the caller's user counter with the caller as owner, a zero
    /// count and the stored derivation bump, and emit an `Initialized`
    /// event. Each distinct owner key gets its own independent slot. Fails
    /// with `AlreadyInitialized`, changing nothing, when the caller already
    /// has one.
    pub fn initialize_user_counter(
        &mut self,
        ctx: &InitializeUserCounter,
        now: i64,
    ) -> (r: Result<(), CounterError>)
        requires
            old(self).wf(),
        ensures
            final(self).wf(),
            r is Ok <==> old(self).user_view(ctx.owner) is None,
            r is Err ==> r == Err::<(), CounterError>(CounterError::AlreadyInitialized)
                && final(self).unchanged_from(*old(self)),
            r is Ok ==> {
                &&& final(self).user_view(ctx.owner) == Some(
                    user_initialized(ctx.owner, ctx.bump, now),
                )
                &&& forall|k: Pubkey| k != ctx.owner ==> final(self).user_view(k) == old(
                    self,
                ).user_view(k)
                &&& final(self).global_view() == old(self).global_view()
                &&& final(self).user_log() == old(self).user_log().push(
                    (UserCounterEvent {
                        event_type: CounterEventType::Initialized,
                        owner: ctx.owner,
                        count: 0,
                        timestamp: now,
                    }),
                )
                &&& final(self).global_log() == old(self).global_log()
            },
    {
        if self.find_user(&ctx.owner).is_some() {
            return Err(CounterError::AlreadyInitialized);
        }
        let rec = UserCounter { owner: ctx.owner, count: 0, bump: ctx.bump, updated_at: now };
        self.users.push(rec);
        self.user_events.push(UserCounterEvent {
            event_type: CounterEventType::Initialized,
            owner: ctx.owner,
            count: 0,
            timestamp: now,
        });
        proof {
            Self::lemma_views_after_push(*old(self), *self, rec);
        }
        Ok(())
    }

    /// Add `amount` to the global count with overflow-checked arithmetic,
    /// refresh the timestamp and emit an `Incremented` event. Fails, in
    /// this order and changing nothing: `NotFound` when the slot is empty,
    /// `Unauthorized` when the caller is not the authority, `MathOverflow`
    /// when the sum would exceed `u64::MAX`.
    pub fn increment_global(
        &mut self,
        ctx: &IncrementGlobal,
        amount: u64,
        now: i64,
    ) -> (r: Result<(), CounterError>)
        requires
            old(self).wf(),
        ensures
            final(self).wf(),
            (match old(self).global_view() {
                None => r == Err::<(), CounterError>(CounterError::NotFound),
                Some(g) => {
                    if g.authority != ctx.authority {
                        r == Err::<(), CounterError>(CounterError::Unauthorized)
                    } else if g.count + amount > u64::MAX {
                        r == Err::<(), CounterError>(CounterError::MathOverflow)
                    } else {
                        r is Ok
                    }
                },
            }),
            r is Err ==> final(self).unchanged_from(*old(self)),
            r is Ok ==> (old(self).global_view() matches Some(g) && {
                &&& final(self).global_view() == Some(global_incremented(g, amount, now))
                &&& forall|k: Pubkey| final(self).user_view(k) == old(self).user_view(k)
                &&& final(self).global_log() == old(self).global_log().push(
                    (GlobalCounterEvent {
                        event_type: CounterEventType::Incremented,
                        authority: g.authority,
                        count: global_incremented(g, amount, now).count,
                        timestamp: now,
                    }),
                )
                &&& final(self).user_log() == old(self).user_log()
            }),
    {
        let g = match self.global {
            Some(g) => g,
            None => {
                return Err(CounterError::NotFound);
            },
        };
        if g.authority != ctx.authority {
            return Err(CounterError::Unauthorized);
        }
        let new_count = match g.count.checked_add(amount) {
            Some(c) => c,
            None => {
                return Err(CounterError::MathOverflow);
            },
        };
        self.global = Some(GlobalCounter { count: new_count, updated_at: now, ..g });
        self.global_events.push(GlobalCounterEvent {
            event_type: CounterEventType::Incremented,
            authority: g.authority,
            count: new_count,
            timestamp: now,
        });
        proof {
            old(self).lemma_same_users_same_views(*self);
        }
        Ok(())
    }

    /// Subtract `amount` from the global count with underflow-checked
    /// arithmetic, refresh the timestamp and emit a `Decremented` event.
    /// Fails, in this order and changing nothing: `NotFound` when the slot
    /// is empty, `Unauthorized` when the caller is not the authority,
    /// `MathUnderflow` when `amount` exceeds the count.
    pub fn decrement_global(
        &mut self,
        ctx: &DecrementGlobal,
        amount: u64,
        now: i64,
    ) -> (r: Result<(), CounterError>)
        requires
            old(self).wf(),
        ensures
            final(self).wf(),
            (match old(self).global_view() {
                None => r == Err::<(), CounterError>(CounterError::NotFound),
                Some(g) => {
                    if g.authority != ctx.authority {
                        r == Err::<(), CounterError>(CounterError::Unauthorized)
                    } else if amount > g.count {
                        r == Err::<(), CounterError>(CounterError::MathUnderflow)
                    } else {
                        r is Ok
                    }
                },
            }),
            r is Err ==> final(self).unchanged_from(*old(self)),
            r is Ok ==> (old(self).global_view() matches Some(g) && {
                &&& final(self).global_view() == Some(global_decremented(g, amount, now))
                &&& forall|k: Pubkey| final(self).user_view(k) == old(self).user_view(k)
                &&& final(self).global_log() == old(self).global_log().push(
                    (GlobalCounterEvent {
                        event_type: CounterEventType::Decremented,
                        authority: g.authority,
                        count: global_decremented(g, amount, now).count,
                        timestamp: now,
                    }),
                )
                &&& final(self).user_log() == old(self).user_log()
            }),
    {
        let g = match self.global {
            Some(g) => g,
            None => {
                return Err(CounterError::NotFound);
            },
        };
        if g.authority != ctx.authority {
            return Err(CounterError::Unauthorized);
        }
        let new_count = match g.count.checked_sub(amount) {
            Some(c) => c,
            None => {
                return Err(CounterError::MathUnderflow);
            },
        };
        self.global = Some(GlobalCounter { count: new_count, updated_at: now, ..g });
        self.global_events.push(GlobalCounterEvent {
            event_type: CounterEventType::Decremented,
            authority: g.authority,
            count: new_count,
            timestamp: now,
        });
        proof {
            old(self).lemma_same_users_same_views(*self);
        }
        Ok(())
    }

    /// Add `amount` to the count of the targeted user counter with
    /// overflow-checked arithmetic, refresh the timestamp and emit an
    /// `Incremented` event. Fails, in this order and changing nothing:
    /// `NotFound` when the targeted slot is empty, `Unauthorized` when the
    /// caller is not the recorded owner, `MathOverflow` when the sum would
    /// exceed `u64::MAX`.
    pub fn increment_user(
        &mut self,
        ctx: &IncrementUser,
        amount: u64,
        now: i64,
    ) -> (r: Result<(), CounterError>)
        requires
            old(self).wf(),
        ensures
            final(self).wf(),
            (match old(self).user_view(ctx.user_counter) {
                None => r == Err::<(), CounterError>(CounterError::NotFound),
                Some(u) => {
                    if u.owner != ctx.owner {
                        r == Err::<(), CounterError>(CounterError::Unauthorized)
                    } else if u.count + amount > u64::MAX {
                        r == Err::<(), CounterError>(CounterError::MathOverflow)
                    } else {
                        r is Ok
                    }
                },
            }),
            r is Err ==> final(self).unchanged_from(*old(self)),
            r is Ok ==> (old(self).user_view(ctx.user_counter) matches Some(u) && {
                &&& final(self).user_view(ctx.user_counter) == Some(
                    user_incremented(u, amount, now),
                )
                &&& forall|k: Pubkey| k != ctx.user_counter ==> final(self).user_view(k) == old(
                    self,
                ).user_view(k)
                &&& final(self).global_view() == old(self).global_view()
                &&& final(self).user_log() == old(self).user_log().push(
                    (UserCounterEvent {
                        event_type: CounterEventType::Incremented,
                        owner: u.owner,
                        count: user_incremented(u, amount, now).count,
                        timestamp: now,
                    }),
                )
                &&& final(self).global_log() == old(self).global_log()
            }),
    {
        let idx = match self.find_user(&ctx.user_counter) {
            Some(i) => i,
            None => {
                return Err(CounterError::NotFound);
            },
        };
        let u = self.users[idx];
        if u.owner != ctx.owner {
            return Err(CounterError::Unauthorized);
        }
        let new_count = match u.count.checked_add(amount) {
            Some(c) => c,
            None => {
                return Err(CounterError::MathOverflow);
            },
        };
        let rec = UserCounter { count: new_count, updated_at: now, ..u };
        self.users[idx] = rec;
        self.user_events.push(UserCounterEvent {
            event_type: CounterEventType::Incremented,
            owner: u.owner,
            count: new_count,
            timestamp: now,
        });
        proof {
            Self::lemma_views_after_update(*old(self), *self, idx as int, rec);
        }
        Ok(())
    }

    /// Subtract `amount` from the count of the targeted user counter with
    /// underflow-checked arithmetic, refresh the timestamp and emit a
    /// `Decremented` event. Fails, in this order and changing nothing:
    /// `NotFound` when the targeted slot is empty, `Unauthorized` when the
    /// caller is not the recorded owner, `MathUnderflow` when `amount`
    /// exceeds the count.
    pub fn decrement_user(
        &mut self,
        ctx: &DecrementUser,
        amount: u64,
        now: i64,
    ) -> (r: Result<(), CounterError>)
        requires
            old(self).wf(),
        ensures
            final(self).wf(),
            (match old(self).user_view(ctx.user_counter) {
                None => r == Err::<(), CounterError>(CounterError::NotFound),
                Some(u) => {
                    if u.owner != ctx.owner {
                        r == Err::<(), CounterError>(CounterError::Unauthorized)
                    } else if amount > u.count {
                        r == Err::<(), CounterError>(CounterError::MathUnderflow)
                    } else {
                        r is Ok
                    }
                },
            }),
            r is Err ==> final(self).unchanged_from(*old(self)),
            r is Ok ==> (old(self).user_view(ctx.user_counter) matches Some(u) && {
                &&& final(self).user_view(ctx.user_counter) == Some(
                    user_decremented(u, amount, now),
                )
                &&& forall|k: Pubkey| k != ctx.user_counter ==> final(self).user_view(k) == old(
                    self,
                ).user_view(k)
                &&& final(self).global_view() == old(self).global_view()
                &&& final(self).user_log() == old(self).user_log().push(
                    (UserCounterEvent {
                        event_type: CounterEventType::Decremented,
                        owner: u.owner,
                        count: user_decremented(u, amount, now).count,
                        timestamp: now,
                    }),
                )
                &&& final(self).global_log() == old(self).global_log()
            }),
    {
        let idx = match self.find_user(&ctx.user_counter) {
            Some(i) => i,
            None => {
                return Err(CounterError::NotFound);
            },
        };
        let u = self.users[idx];
        if u.owner != ctx.owner {
            return Err(CounterError::Unauthorized);
        }
        let new_count = match u.count.checked_sub(amount) {
            Some(c) => c,
            None => {
                return Err(CounterError::MathUnderflow);
            },
        };
        let rec = UserCounter { count: new_count, updated_at: now, ..u };
        self.users[idx] = rec;
        self.user_events.push(UserCounterEvent {
            event_type: CounterEventType::Decremented,
            owner: u.owner,
            count: new_count,
            timestamp: now,
        });
        proof {
            Self::lemma_views_after_update(*old(self), *self, idx as int, rec);
        }
        Ok(())
    }

    /// Hand the global counter to a new authority, refresh the timestamp
    /// and emit an event. The emitted event reuses the `Initialized` tag,
    /// as no dedicated authority-change tag exists; it carries the new
    /// authority and the unchanged count.
    /// Fails, changing nothing: `NotFound` when the slot is empty,
    /// `Unauthorized` when the caller is not the current authority.
    pub fn transfer_global_authority(
        &mut self,
        ctx: &TransferGlobalAuthority,
        new_authority: Pubkey,
        now: i64,
    ) -> (r: Result<(), CounterError>)
        requires
            old(self).wf(),
        ensures
            final(self).wf(),
            (match old(self).global_view() {
                None => r == Err::<(), CounterError>(CounterError::NotFound),
                Some(g) => {
                    if g.authority != ctx.authority {
                        r == Err::<(), CounterError>(CounterError::Unauthorized)
                    } else {
                        r is Ok
                    }
                },
            }),
            r is Err ==> final(self).unchanged_from(*old(self)),
            r is Ok ==> (old(self).global_view() matches Some(g) && {
                &&& final(self).global_view() == Some(global_reauthorized(g, new_authority, now))
                &&& forall|k: Pubkey| final(self).user_view(k) == old(self).user_view(k)
                &&& final(self).global_log() == old(self).global_log().push(
                    (GlobalCounterEvent {
                        event_type: CounterEventType::Initialized,
                        authority: new_authority,
                        count: g.count,
                        timestamp: now,
                    }),
                )
                &&& final(self).user_log() == old(self).user_log()
            }),
    {
        let g = match self.global {
            Some(g) => g,
            None => {
                return Err(CounterError::NotFound);
            },
        };
        if g.authority != ctx.authority {
            return Err(CounterError::Unauthorized);
        }
        self.global = Some(GlobalCounter { authority: new_authority, updated_at: now, ..g });
        self.global_events.push(GlobalCounterEvent {
            event_type: CounterEventType::Initialized,
            authority: new_authority,
            count: g.count,
            timestamp: now,
        });
        proof {
            old(self).lemma_same_users_same_views(*self);
        }
        Ok(())
    }

    /// Delete the targeted user counter; the host then refunds the slot's
    /// storage allowance to the caller. No event is emitted for this
    /// transition — the one mutating operation that emits none. Fails,
    /// changing nothing: `NotFound` when the targeted slot is empty,
    /// `Unauthorized` when the caller is not the recorded owner.
    pub fn close_user_counter(&mut self, ctx: &CloseUserCounter) -> (r: Result<
        (),
        CounterError,
    >)
        requires
            old(self).wf(),
        ensures
            final(self).wf(),
            (match old(self).user_view(ctx.user_counter) {
                None => r == Err::<(), CounterError>(CounterError::NotFound),
                Some(u) => {
                    if u.owner != ctx.owner {
                        r == Err::<(), CounterError>(CounterError::Unauthorized)
                    } else {
                        r is Ok
                    }
                },
            }),
            r is Err ==> final(self).unchanged_from(*old(self)),
            r is Ok ==> {
                &&& final(self).user_view(ctx.user_counter) is None
                &&& forall|k: Pubkey| k != ctx.user_counter ==> final(self).user_view(k) == old(
                    self,
                ).user_view(k)
                &&& final(self).global_view() == old(self).global_view()
                &&& final(self).global_log() == old(self).global_log()
                &&& final(self).user_log() == old(self).user_log()
            },
    {
        let idx = match self.find_user(&ctx.user_counter) {
            Some(i) => i,
            None => {
                return Err(CounterError::NotFound);
            },
        };
        if self.users[idx].owner != ctx.owner {
            return Err(CounterError::Unauthorized);
        }
        self.users.remove(idx);
        proof {
            Self::lemma_views_after_remove(*old(self), *self, idx as int);
        }
        Ok(())
    }

    /// The legacy greeting operation: it reads nothing, changes nothing
    /// and always succeeds; kept for compatibility with existing callers.
    pub fn initialize(&self, _ctx: &Initialize) -> (r: Result<(), CounterError>)
        ensures
            r is Ok,
    {
        Ok(())
    }

    /// The global record, if its slot is occupied.
    pub fn get_global(&self) -> (r: Option<GlobalCounter>)
        ensures
            r == self.global_view(),
    {
        self.global
    }

    /// The user record of `owner`, if that slot is occupied.
    pub fn get_user(&self, owner: &Pubkey) -> (r: Option<UserCounter>)
        requires
            self.wf(),
        ensures
            r == self.user_view(*owner),
    {
        match self.find_user(owner) {
            Some(i) => Some(self.users[i]),
            None => None,
        }
    }

    /// How many global-counter events have been emitted.
    pub fn global_event_count(&self) -> (r: usize)
        ensures
            r == self.global_log().len(),
    {
        self.global_events.len()
    }

    /// The `i`th global-counter event, oldest first.
    pub fn global_event_at(&self, i: usize) -> (r: GlobalCounterEvent)
        requires
            i < self.global_log().len(),
        ensures
            r == self.global_log()[i as int],
    {
        self.global_events[i]
    }

    /// How many user-counter events have been emitted.
    pub fn user_event_count(&self) -> (r: usize)
        ensures
            r == self.user_log().len(),
    {
        self.user_events.len()
    }

    /// The `i`th user-counter event, oldest first.
    pub fn user_event_at(&self, i: usize) -> (r: UserCounterEvent)
        requires
            i < self.user_log().len(),
        ensures
            r == self.user_log()[i as int],
    {
        self.user_events[i]
    }
}

} // verus!
