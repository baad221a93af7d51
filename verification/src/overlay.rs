//! The state overlay: a layered account/storage view combining a read-only
//! snapshot of persisted state with an in-memory write layer for uncommitted
//! mutations.
//!
//! The base snapshot is fixed at construction and never written through to;
//! `commit` merges a transaction's state diff into the write layer only. Both
//! layers are journals whose meaning is a map: later entries override earlier
//! ones, so committing is appending.

use vstd::prelude::*;

verus! {

/// The account image the execution engine reads and writes: plain balance
/// and nonce.
#[derive(Debug, Clone, Copy, PartialEq, Eq, Structural)]
pub struct Account {
    pub balance: u128,
    pub nonce: u64,
}

impl Account {
    /// The state of an account nothing has ever touched.
    pub open spec fn spec_empty() -> Account {
        Account { balance: 0, nonce: 0 }
    }
}

/// One account-level mutation: the account at `address` now has this image.
#[derive(Debug, Clone, Copy, PartialEq, Eq, Structural)]
pub struct AccountChange {
    pub address: u64,
    pub account: Account,
}

/// One storage-slot mutation.
#[derive(Debug, Clone, Copy, PartialEq, Eq, Structural)]
pub struct SlotWrite {
    pub address: u64,
    pub slot: u64,
    pub value: u64,
}

/// The full effect of one executed transaction on the state: the accounts it
/// rewrote and the storage slots it rewrote.
#[derive(Debug, Clone, PartialEq, Eq)]
pub struct StateDiff {
    pub accounts: Vec<AccountChange>,
    pub storage: Vec<SlotWrite>,
}

/// A read-only snapshot of persisted state rooted at some block, as the
/// storage collaborator hands it out: plain account and storage data.
#[derive(Debug, Clone, PartialEq, Eq)]
pub struct StateSnapshot {
    pub accounts: Vec<AccountChange>,
    pub storage: Vec<SlotWrite>,
}

/// The mathematical meaning of one state layer: a map of account images and
/// a map of storage-slot values keyed by (address, slot).
pub ghost struct StateView {
    pub accounts: Map<u64, Account>,
    pub storage: Map<(u64, u64), u64>,
}

/// The layer that maps nothing.
pub open spec fn empty_view() -> StateView {
    StateView { accounts: Map::empty(), storage: Map::empty() }
}

/// Applies account mutations to a map of account images, in order: later
/// mutations override earlier ones.
pub open spec fn apply_account_changes(m: Map<u64, Account>, s: Seq<AccountChange>) -> Map<
    u64,
    Account,
>
    decreases s.len(),
{
    if s.len() == 0 {
        m
    } else {
        apply_account_changes(m, s.drop_last()).insert(s.last().address, s.last().account)
    }
}

/// Applies storage-slot mutations to a storage map, in order.
pub open spec fn apply_slot_writes(m: Map<(u64, u64), u64>, s: Seq<SlotWrite>) -> Map<
    (u64, u64),
    u64,
>
    decreases s.len(),
{
    if s.len() == 0 {
        m
    } else {
        apply_slot_writes(m, s.drop_last()).insert(
            (s.last().address, s.last().slot),
            s.last().value,
        )
    }
}

/// Merging a transaction's diff into a layer: every account and slot the
/// diff touches takes the diff's image, everything else is kept.
pub open spec fn spec_commit(v: StateView, diff: StateDiff) -> StateView {
    StateView {
        accounts: apply_account_changes(v.accounts, diff.accounts@),
        storage: apply_slot_writes(v.storage, diff.storage@),
    }
}

impl View for StateSnapshot {
    type V = StateView;

    open spec fn view(&self) -> StateView {
        StateView {
            accounts: apply_account_changes(Map::empty(), self.accounts@),
            storage: apply_slot_writes(Map::empty(), self.storage@),
        }
    }
}

/// Mutations that never mention `address` leave its account image alone.
proof fn lemma_apply_account_changes_absent(
    m: Map<u64, Account>,
    s: Seq<AccountChange>,
    address: u64,
)
    requires
        forall|j: int| 0 <= j < s.len() ==> s[j].address != address,
    ensures
        apply_account_changes(m, s).contains_key(address) == m.contains_key(address),
        m.contains_key(address) ==> apply_account_changes(m, s)[address] == m[address],
    decreases s.len(),
{
    if s.len() > 0 {
        lemma_apply_account_changes_absent(m, s.drop_last(), address);
    }
}

/// The image of `s[i].address` is `s[i].account` when no later mutation
/// mentions that address.
proof fn lemma_apply_account_changes_found(m: Map<u64, Account>, s: Seq<AccountChange>, i: int)
    requires
        0 <= i < s.len(),
        forall|j: int| i < j < s.len() ==> s[j].address != s[i].address,
    ensures
        apply_account_changes(m, s).contains_key(s[i].address),
        apply_account_changes(m, s)[s[i].address] == s[i].account,
    decreases s.len(),
{
    if i < s.len() - 1 {
        assert(forall|j: int|
            i < j < s.drop_last().len() ==> s.drop_last()[j].address != s.drop_last()[i].address);
        lemma_apply_account_changes_found(m, s.drop_last(), i);
    }
}

/// Mutations that never mention the slot leave it alone.
proof fn lemma_apply_slot_writes_absent(m: Map<(u64, u64), u64>, s: Seq<SlotWrite>, key: (u64, u64))
    requires
        forall|j: int| 0 <= j < s.len() ==> (s[j].address, s[j].slot) != key,
    ensures
        apply_slot_writes(m, s).contains_key(key) == m.contains_key(key),
        m.contains_key(key) ==> apply_slot_writes(m, s)[key] == m[key],
    decreases s.len(),
{
    if s.len() > 0 {
        lemma_apply_slot_writes_absent(m, s.drop_last(), key);
    }
}

/// The value of slot `(s[i].address, s[i].slot)` is `s[i].value` when no
/// later mutation mentions that slot.
proof fn lemma_apply_slot_writes_found(m: Map<(u64, u64), u64>, s: Seq<SlotWrite>, i: int)
    requires
        0 <= i < s.len(),
        forall|j: int|
            i < j < s.len() ==> (s[j].address, s[j].slot) != (s[i].address, s[i].slot),
    ensures
        apply_slot_writes(m, s).contains_key((s[i].address, s[i].slot)),
        apply_slot_writes(m, s)[(s[i].address, s[i].slot)] == s[i].value,
    decreases s.len(),
{
    if i < s.len() - 1 {
        assert(forall|j: int|
            i < j < s.drop_last().len() ==> (s.drop_last()[j].address, s.drop_last()[j].slot) != (
            s.drop_last()[i].address,
            s.drop_last()[i].slot,
            ));
        lemma_apply_slot_writes_found(m, s.drop_last(), i);
    }
}

/// Applying a concatenation of mutation journals is applying them one after
/// the other.
pub proof fn lemma_apply_account_changes_concat(
    m: Map<u64, Account>,
    s1: Seq<AccountChange>,
    s2: Seq<AccountChange>,
)
    ensures
        apply_account_changes(m, s1 + s2) == apply_account_changes(
            apply_account_changes(m, s1),
            s2,
        ),
    decreases s2.len(),
{
    if s2.len() == 0 {
        assert(s1 + s2 =~= s1);
    } else {
        lemma_apply_account_changes_concat(m, s1, s2.drop_last());
        assert((s1 + s2).drop_last() =~= s1 + s2.drop_last());
        assert((s1 + s2).last() == s2.last());
    }
}

/// Applying a concatenation of slot-write journals is applying them one
/// after the other.
pub proof fn lemma_apply_slot_writes_concat(
    m: Map<(u64, u64), u64>,
    s1: Seq<SlotWrite>,
    s2: Seq<SlotWrite>,
)
    ensures
        apply_slot_writes(m, s1 + s2) == apply_slot_writes(apply_slot_writes(m, s1), s2),
    decreases s2.len(),
{
    if s2.len() == 0 {
        assert(s1 + s2 =~= s1);
    } else {
        lemma_apply_slot_writes_concat(m, s1, s2.drop_last());
        assert((s1 + s2).drop_last() =~= s1 + s2.drop_last());
        assert((s1 + s2).last() == s2.last());
    }
}

/// The layered account/storage view. Lookups read the write layer first and
/// fall through to the base snapshot; accounts and slots neither layer knows
/// are empty. The fields are private on purpose: no operation of this type
/// ever writes to the base layer.
#[derive(Debug)]
pub struct StateOverlay {
    base_accounts: Vec<AccountChange>,
    base_storage: Vec<SlotWrite>,
    write_accounts: Vec<AccountChange>,
    write_storage: Vec<SlotWrite>,
}

impl StateOverlay {
    /// The read-only base layer: the persisted state this overlay is rooted
    /// at.
    pub closed spec fn base(&self) -> StateView {
        StateView {
            accounts: apply_account_changes(Map::empty(), self.base_accounts@),
            storage: apply_slot_writes(Map::empty(), self.base_storage@),
        }
    }

    /// The write layer: the uncommitted mutations accumulated so far.
    pub closed spec fn writes(&self) -> StateView {
        StateView {
            accounts: apply_account_changes(Map::empty(), self.write_accounts@),
            storage: apply_slot_writes(Map::empty(), self.write_storage@),
        }
    }

    /// What reading an account through the overlay yields.
    pub open spec fn spec_account(&self, address: u64) -> Account {
        if self.writes().accounts.contains_key(address) {
            self.writes().accounts[address]
        } else if self.base().accounts.contains_key(address) {
            self.base().accounts[address]
        } else {
            Account::spec_empty()
        }
    }

    /// What reading a storage slot through the overlay yields.
    pub open spec fn spec_storage(&self, address: u64, slot: u64) -> u64 {
        if self.writes().storage.contains_key((address, slot)) {
            self.writes().storage[(address, slot)]
        } else if self.base().storage.contains_key((address, slot)) {
            self.base().storage[(address, slot)]
        } else {
            0
        }
    }

    /// Wraps a snapshot of persisted state as the base of a fresh overlay
    /// with an empty write layer.
    pub fn new(base: StateSnapshot) -> (r: Self)
        ensures
            r.base() == base@,
            r.writes() == empty_view(),
    {
        StateOverlay {
            base_accounts: base.accounts,
            base_storage: base.storage,
            write_accounts: Vec::new(),
            write_storage: Vec::new(),
        }
    }

    /// Last mutation of `address` in the journal, if any; its meaning in the
    /// journal's map.
    fn find_account(entries: &Vec<AccountChange>, address: u64) -> (r: Option<Account>)
        ensures
            match r {
                Some(a) => apply_account_changes(Map::empty(), entries@).contains_key(address)
                    && apply_account_changes(Map::empty(), entries@)[address] == a,
                None => !apply_account_changes(Map::empty(), entries@).contains_key(address),
            },
    {
        let mut i = entries.len();
        while i > 0
            invariant
                i <= entries@.len(),
                forall|j: int| i <= j < entries@.len() ==> entries@[j].address != address,
            decreases i,
        {
            i = i - 1;
            if entries[i].address == address {
                proof {
                    lemma_apply_account_changes_found(Map::empty(), entries@, i as int);
                }
                return Some(entries[i].account);
            }
        }
        proof {
            lemma_apply_account_changes_absent(Map::empty(), entries@, address);
        }
        None
    }

    /// Last mutation of the slot in the journal, if any; its meaning in the
    /// journal's map.
    fn find_slot(entries: &Vec<SlotWrite>, address: u64, slot: u64) -> (r: Option<u64>)
        ensures
            match r {
                Some(v) => apply_slot_writes(Map::empty(), entries@).contains_key((address, slot))
                    && apply_slot_writes(Map::empty(), entries@)[(address, slot)] == v,
                None => !apply_slot_writes(Map::empty(), entries@).contains_key((address, slot)),
            },
    {
        let mut i = entries.len();
        while i > 0
            invariant
                i <= entries@.len(),
                forall|j: int|
                    i <= j < entries@.len() ==> (entries@[j].address, entries@[j].slot) != (
                    address,
                    slot,
                    ),
            decreases i,
        {
            i = i - 1;
            if entries[i].address == address && entries[i].slot == slot {
                proof {
                    lemma_apply_slot_writes_found(Map::empty(), entries@, i as int);
                }
                return Some(entries[i].value);
            }
        }
        proof {
            lemma_apply_slot_writes_absent(Map::empty(), entries@, (address, slot));
        }
        None
    }

    /// Reads an account through the overlay: the write layer wins, the base
    /// answers next, untouched accounts are empty.
    pub fn account(&self, address: u64) -> (r: Account)
        ensures
            r == self.spec_account(address),
    {
        match Self::find_account(&self.write_accounts, address) {
            Some(a) => a,
            None => match Self::find_account(&self.base_accounts, address) {
                Some(a) => a,
                None => Account { balance: 0, nonce: 0 },
            },
        }
    }

    /// Reads a storage slot through the overlay.
    pub fn storage(&self, address: u64, slot: u64) -> (r: u64)
        ensures
            r == self.spec_storage(address, slot),
    {
        match Self::find_slot(&self.write_storage, address, slot) {
            Some(v) => v,
            None => match Self::find_slot(&self.base_storage, address, slot) {
                Some(v) => v,
                None => 0,
            },
        }
    }

    /// Merges a transaction's resulting diff into the write layer. The base
    /// layer is never written: it is untouched whatever is committed.
    pub fn commit(&mut self, diff: &StateDiff)
        ensures
            final(self).base() == old(self).base(),
            final(self).writes() == spec_commit(old(self).writes(), *diff),
    {
        let na = diff.accounts.len();
        let mut i: usize = 0;
        while i < na
            invariant
                i <= na,
                na == diff.accounts@.len(),
                self.write_accounts@ == old(self).write_accounts@ + diff.accounts@.take(i as int),
                self.write_storage@ == old(self).write_storage@,
                self.base_accounts@ == old(self).base_accounts@,
                self.base_storage@ == old(self).base_storage@,
            decreases na - i,
        {
            self.write_accounts.push(diff.accounts[i]);
            proof {
                assert(self.write_accounts@ =~= old(self).write_accounts@ + diff.accounts@.take(
                    i as int + 1,
                ));
            }
            i = i + 1;
        }
        let ns = diff.storage.len();
        let mut k: usize = 0;
        while k < ns
            invariant
                k <= ns,
                ns == diff.storage@.len(),
                self.write_accounts@ == old(self).write_accounts@ + diff.accounts@,
                self.write_storage@ == old(self).write_storage@ + diff.storage@.take(k as int),
                self.base_accounts@ == old(self).base_accounts@,
                self.base_storage@ == old(self).base_storage@,
            decreases ns - k,
        {
            self.write_storage.push(diff.storage[k]);
            proof {
                assert(self.write_storage@ =~= old(self).write_storage@ + diff.storage@.take(
                    k as int + 1,
                ));
            }
            k = k + 1;
        }
        proof {
            assert(diff.accounts@.take(na as int) =~= diff.accounts@);
            assert(diff.storage@.take(ns as int) =~= diff.storage@);
            lemma_apply_account_changes_concat(
                Map::empty(),
                old(self).write_accounts@,
                diff.accounts@,
            );
            lemma_apply_slot_writes_concat(Map::empty(), old(self).write_storage@, diff.storage@);
        }
    }
}

} // verus!
