//! The account registry: a map from identity to account.

use crate::account::{Account, AccountId, AccountRole};
use std::collections::HashMap;
use vstd::prelude::*;

verus! {

broadcast use vstd::std_specs::hash::group_hash_axioms;

/// The account stored for `id`, or the default account where the registry
/// holds none.
pub open spec fn account_of(registry: Map<AccountId, Account>, id: AccountId) -> Account {
    if registry.contains_key(id) {
        registry[id]
    } else {
        Account::spec_default()
    }
}

/// The registry that a list of accounts produces: its entries are inserted
/// from first to last, so a later entry for an identity replaces an earlier
/// one.
pub open spec fn accounts_map(entries: Seq<(AccountId, Account)>) -> Map<AccountId, Account>
    decreases entries.len(),
{
    if entries.len() == 0 {
        Map::empty()
    } else {
        accounts_map(entries.drop_last()).insert(entries.last().0, entries.last().1)
    }
}

/// The account that a seed entry with role `role` creates: stamped with
/// time zero.
pub open spec fn genesis_account(role: AccountRole) -> Account {
    Account { roles: role, create_time: 0 }
}

/// The accounts that a seed list of identities and roles stands for, in the
/// order of the list.
pub open spec fn genesis_entries(seed: Seq<(AccountId, AccountRole)>) -> Seq<(AccountId, Account)> {
    Seq::new(seed.len(), |i: int| (seed[i].0, genesis_account(seed[i].1)))
}

/// The registry that a seed list produces.
pub open spec fn genesis_map(seed: Seq<(AccountId, AccountRole)>) -> Map<AccountId, Account> {
    accounts_map(genesis_entries(seed))
}

/// Whether `i` is the position of the last entry for `id`.
pub open spec fn is_last_entry_for(
    entries: Seq<(AccountId, Account)>,
    id: AccountId,
    i: int,
) -> bool {
    &&& 0 <= i < entries.len()
    &&& entries[i].0 == id
    &&& forall|j: int| i < j < entries.len() ==> (#[trigger] entries[j]).0 != id
}

/// An identity is in the registry made from a list exactly when the list
/// names it, and its account is then the one of the last entry that names
/// it.
pub proof fn lemma_accounts_map(entries: Seq<(AccountId, Account)>, id: AccountId)
    ensures
        accounts_map(entries).contains_key(id) <==> exists|i: int|
            0 <= i < entries.len() && (#[trigger] entries[i]).0 == id,
        forall|i: int|
            is_last_entry_for(entries, id, i) ==> accounts_map(entries)[id] == entries[i].1,
    decreases entries.len(),
{
    if entries.len() > 0 {
        let front = entries.drop_last();
        lemma_accounts_map(front, id);
        if entries.last().0 == id {
            assert(entries[entries.len() - 1].0 == id);
            assert forall|i: int| is_last_entry_for(entries, id, i) implies accounts_map(
                entries,
            )[id] == entries[i].1 by {
                if i < entries.len() - 1 {
                    assert(entries[entries.len() - 1].0 != id);
                }
            }
        } else {
            if accounts_map(front).contains_key(id) {
                let i: int = choose|i: int| 0 <= i < front.len() && (#[trigger] front[i]).0 == id;
                assert(entries[i].0 == id);
            }
            if exists|i: int| 0 <= i < entries.len() && (#[trigger] entries[i]).0 == id {
                let i: int = choose|i: int|
                    0 <= i < entries.len() && (#[trigger] entries[i]).0 == id;
                assert(front[i].0 == id);
            }
            assert forall|i: int| is_last_entry_for(entries, id, i) implies accounts_map(
                entries,
            )[id] == entries[i].1 by {
                assert(i < front.len());
                assert(front[i] == entries[i]);
                assert forall|j: int| i < j < front.len() implies (#[trigger] front[j]).0
                    != id by {
                    assert(entries[j].0 != id);
                }
                assert(is_last_entry_for(front, id, i));
            }
        }
    }
}

/// An identity is in the seeded registry exactly when the seed list names
/// it. Its account then carries the role of the last entry that names it,
/// and the creation time zero.
pub proof fn lemma_genesis_map(seed: Seq<(AccountId, AccountRole)>, id: AccountId)
    ensures
        genesis_map(seed).contains_key(id) <==> exists|i: int|
            0 <= i < seed.len() && (#[trigger] seed[i]).0 == id,
        forall|i: int|
            0 <= i < seed.len() && seed[i].0 == id && (forall|j: int|
                i < j < seed.len() ==> (#[trigger] seed[j]).0 != id) ==> genesis_map(seed)[id]
                == genesis_account(#[trigger] seed[i].1),
{
    let entries = genesis_entries(seed);
    lemma_accounts_map(entries, id);
    if accounts_map(entries).contains_key(id) {
        let i: int = choose|i: int| 0 <= i < entries.len() && (#[trigger] entries[i]).0 == id;
        assert(seed[i].0 == id);
    }
    if exists|i: int| 0 <= i < seed.len() && (#[trigger] seed[i]).0 == id {
        let i: int = choose|i: int| 0 <= i < seed.len() && (#[trigger] seed[i]).0 == id;
        assert(entries[i].0 == id);
    }
    assert forall|i: int|
        0 <= i < seed.len() && seed[i].0 == id && (forall|j: int|
            i < j < seed.len() ==> (#[trigger] seed[j]).0 != id) implies genesis_map(seed)[id]
        == genesis_account(#[trigger] seed[i].1) by {
        assert forall|j: int| i < j < entries.len() implies (#[trigger] entries[j]).0 != id by {
            assert(seed[j].0 != id);
        }
        assert(is_last_entry_for(entries, id, i));
    }
}

/// A seed list without entries leaves the registry empty, so no identity is
/// an administrator.
pub proof fn lemma_empty_genesis_has_no_admin(id: AccountId)
    ensures
        genesis_map(Seq::empty()) == Map::<AccountId, Account>::empty(),
        !account_of(genesis_map(Seq::empty()), id).spec_is_admin(),
{
    assert(genesis_entries(Seq::empty()).len() == 0);
    assert(0u8 & 0x01 == 0) by (bit_vector);
}

/// Accounts by identity. Whether an identity is present matters: an absent
/// identity reads as the default account, but only a present one can be
/// removed.
pub struct AccountRegistry {
    accounts: HashMap<AccountId, Account>,
}

impl View for AccountRegistry {
    type V = Map<AccountId, Account>;

    closed spec fn view(&self) -> Map<AccountId, Account> {
        self.accounts@
    }
}

impl AccountRegistry {
    /// A registry without accounts.
    pub fn new() -> (registry: AccountRegistry)
        ensures
            registry@ == Map::<AccountId, Account>::empty(),
    {
        AccountRegistry { accounts: HashMap::new() }
    }

    /// The registry that holds the accounts of `entries`. Where the list
    /// names an identity twice, the later entry stands.
    pub fn from_accounts(entries: &Vec<(AccountId, Account)>) -> (registry: AccountRegistry)
        ensures
            registry@ == accounts_map(entries@),
    {
        let mut registry = AccountRegistry::new();
        let mut i: usize = 0;
        while i < entries.len()
            invariant
                i <= entries.len(),
                registry@ == accounts_map(entries@.take(i as int)),
            decreases entries.len() - i,
        {
            let entry = entries[i];
            proof {
                let next = entries@.take(i + 1);
                assert(next.drop_last() == entries@.take(i as int));
                assert(next.last() == entries@[i as int]);
            }
            registry.insert(entry.0, entry.1);
            i = i + 1;
        }
        proof {
            assert(entries@.take(entries.len() as int) == entries@);
        }
        registry
    }

    /// The registry seeded from `seed`, a list of identities with their
    /// roles. Every seeded account is created at time zero; where the list
    /// names an identity twice, the later entry stands.
    pub fn from_genesis(seed: &Vec<(AccountId, AccountRole)>) -> (registry: AccountRegistry)
        ensures
            registry@ == genesis_map(seed@),
    {
        let mut registry = AccountRegistry::new();
        let mut i: usize = 0;
        while i < seed.len()
            invariant
                i <= seed.len(),
                registry@ == genesis_map(seed@.take(i as int)),
            decreases seed.len() - i,
        {
            let entry = seed[i];
            proof {
                let done = genesis_entries(seed@.take(i as int));
                let next = genesis_entries(seed@.take(i + 1));
                assert(next.drop_last() == done);
                assert(next.last() == (entry.0, genesis_account(entry.1)));
            }
            registry.insert(entry.0, Account { roles: entry.1, create_time: 0 });
            i = i + 1;
        }
        proof {
            assert(seed@.take(seed.len() as int) == seed@);
        }
        registry
    }

    /// Whether the registry holds an account for `id`.
    pub fn contains_key(&self, id: &AccountId) -> (present: bool)
        ensures
            present == self@.contains_key(*id),
    {
        self.accounts.contains_key(id)
    }

    /// The account of `id`; the default account where `id` is absent.
    pub fn get(&self, id: &AccountId) -> (account: Account)
        ensures
            account == account_of(self@, *id),
    {
        match self.accounts.get(id) {
            Some(account) => *account,
            None => Account::default(),
        }
    }

    /// Stores `account` for `id`, in place of what was stored before.
    pub fn insert(&mut self, id: AccountId, account: Account)
        ensures
            final(self)@ == old(self)@.insert(id, account),
    {
        self.accounts.insert(id, account);
    }

    /// Takes the account of `id` out of the registry, if there is one.
    pub fn remove(&mut self, id: &AccountId)
        ensures
            final(self)@ == old(self)@.remove(*id),
    {
        self.accounts.remove(id);
    }

    /// Number of accounts in the registry.
    pub fn len(&self) -> (n: usize)
        ensures
            n == self@.len(),
    {
        self.accounts.len()
    }
}

} // verus!
