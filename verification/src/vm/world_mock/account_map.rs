//! Accounts by address.

use vstd::prelude::*;
use crate::types::assoc::{
    assoc_map, distinct, lemma_assoc_absent, lemma_assoc_at, lemma_assoc_push, lemma_assoc_update,
};
use crate::types::vm_address::VMAddress;
use crate::vm::world_mock::account_data::{AccountData, AccountDataView};

verus! {

/// The addresses of a list of accounts, in order.
pub open spec fn account_keys(list: Seq<AccountData>) -> Seq<Seq<u8>> {
    Seq::new(list.len(), |i: int| list[i].address@)
}

/// The contents of a list of accounts, in order.
pub open spec fn account_views(list: Seq<AccountData>) -> Seq<AccountDataView> {
    Seq::new(list.len(), |i: int| list[i]@)
}

/// A set of accounts, at most one for each address.
#[derive(Clone, Debug)]
pub struct AccountMap {
    entries: Vec<AccountData>,
}

impl View for AccountMap {
    type V = Map<Seq<u8>, AccountDataView>;

    closed spec fn view(&self) -> Map<Seq<u8>, AccountDataView> {
        assoc_map(account_keys(self.entries@), account_views(self.entries@))
    }
}

impl AccountMap {
    /// No address has two accounts, and every account is well formed.
    pub closed spec fn wf(&self) -> bool {
        &&& distinct(account_keys(self.entries@))
        &&& forall|i: int| 0 <= i < self.entries@.len() ==> (#[trigger] self.entries@[i]).wf()
    }

    /// Every account is kept under its own address.
    pub proof fn lemma_keyed_by_address(&self, address: Seq<u8>)
        requires
            self.wf(),
            self@.dom().contains(address),
        ensures
            self@[address].address == address,
    {
        let keys = account_keys(self.entries@);
        let vals = account_views(self.entries@);
        let i = choose|i: int| 0 <= i < keys.len() && keys[i] == address;
        lemma_assoc_at(keys, vals, i);
    }

    /// No accounts.
    pub fn new() -> (r: Self)
        ensures
            r.wf(),
            r@ == Map::<Seq<u8>, AccountDataView>::empty(),
    {
        let r = AccountMap { entries: Vec::new() };
        assert(r@ =~= Map::<Seq<u8>, AccountDataView>::empty());
        r
    }

    fn find(&self, address: &VMAddress) -> (r: Option<usize>)
        ensures
            match r {
                Some(i) => i < self.entries@.len() && self.entries@[i as int].address@ == address@,
                None => forall|j: int|
                    0 <= j < self.entries@.len() ==> account_keys(self.entries@)[j] != address@,
            },
    {
        let mut i: usize = 0;
        while i < self.entries.len()
            invariant
                i <= self.entries@.len(),
                forall|j: int| 0 <= j < i ==> account_keys(self.entries@)[j] != address@,
            decreases self.entries.len() - i,
        {
            if self.entries[i].address.same_as(address) {
                return Some(i);
            }
            i += 1;
        }
        None
    }

    /// Whether no account is held.
    pub fn is_empty(&self) -> (r: bool)
        ensures
            r == (self@ == Map::<Seq<u8>, AccountDataView>::empty()),
    {
        let r = self.entries.len() == 0;
        proof {
            let keys = account_keys(self.entries@);
            if r {
                assert(self@ =~= Map::<Seq<u8>, AccountDataView>::empty());
            } else {
                assert(keys[0] == keys[0]);
                assert(keys.contains(keys[0]));
                assert(self@.dom().contains(keys[0]));
            }
        }
        r
    }

    /// The account at `address`, if one is held.
    pub fn get(&self, address: &VMAddress) -> (r: Option<&AccountData>)
        requires
            self.wf(),
        ensures
            r is Some == self@.dom().contains(address@),
            r matches Some(account) ==> account.wf() && account@ == self@[address@],
    {
        let ghost keys = account_keys(self.entries@);
        let ghost vals = account_views(self.entries@);
        match self.find(address) {
            Some(i) => {
                proof {
                    lemma_assoc_at(keys, vals, i as int);
                }
                Some(&self.entries[i])
            },
            None => {
                proof {
                    lemma_assoc_absent(keys, vals, address@);
                }
                None
            },
        }
    }

    /// Puts `account` under its address. An account already held under that address is
    /// replaced.
    pub fn insert(&mut self, account: AccountData)
        requires
            old(self).wf(),
            account.wf(),
        ensures
            final(self).wf(),
            final(self)@ == old(self)@.insert(account.address@, account@),
    {
        let ghost keys = account_keys(self.entries@);
        let ghost vals = account_views(self.entries@);
        let address = account.address;
        match self.find(&address) {
            Some(i) => {
                self.entries[i] = account;
                proof {
                    assert(account_keys(self.entries@) =~= keys);
                    assert(account_views(self.entries@) =~= vals.update(i as int, account@));
                    lemma_assoc_update(keys, vals, i as int, account@);
                }
            },
            None => {
                self.entries.push(account);
                proof {
                    assert(account_keys(self.entries@) =~= keys.push(account.address@));
                    assert(account_views(self.entries@) =~= vals.push(account@));
                    lemma_assoc_push(keys, vals, account.address@, account@);
                }
            },
        }
    }

    /// Puts every account of `other` under its address, replacing the accounts already held
    /// under those addresses.
    pub fn extend(&mut self, other: &AccountMap)
        requires
            old(self).wf(),
            other.wf(),
        ensures
            final(self).wf(),
            final(self)@ == old(self)@.union_prefer_right(other@),
    {
        let ghost keys = account_keys(other.entries@);
        let ghost vals = account_views(other.entries@);
        let mut i: usize = 0;
        proof {
            assert(assoc_map(keys.take(0), vals.take(0)) =~= Map::<
                Seq<u8>,
                AccountDataView,
            >::empty());
            assert(self@ =~= old(self)@.union_prefer_right(
                Map::<Seq<u8>, AccountDataView>::empty(),
            ));
        }
        while i < other.entries.len()
            invariant
                i <= other.entries@.len(),
                other.wf(),
                self.wf(),
                keys == account_keys(other.entries@),
                vals == account_views(other.entries@),
                self@ == old(self)@.union_prefer_right(
                    assoc_map(keys.take(i as int), vals.take(i as int)),
                ),
            decreases other.entries.len() - i,
        {
            let account = other.entries[i].duplicate();
            proof {
                let done_keys = keys.take(i as int);
                let done_vals = vals.take(i as int);
                assert(distinct(done_keys));
                assert forall|j: int| 0 <= j < done_keys.len() implies done_keys[j]
                    != account.address@ by {
                    assert(keys[j] != keys[i as int]);
                }
                lemma_assoc_push(done_keys, done_vals, account.address@, account@);
                assert(keys.take(i + 1) =~= done_keys.push(account.address@));
                assert(vals.take(i + 1) =~= done_vals.push(account@));
                assert(old(self)@.union_prefer_right(assoc_map(done_keys, done_vals)).insert(
                    account.address@,
                    account@,
                ) =~= old(self)@.union_prefer_right(
                    assoc_map(done_keys, done_vals).insert(account.address@, account@),
                ));
            }
            self.insert(account);
            i += 1;
        }
        proof {
            assert(keys.take(i as int) =~= keys);
            assert(vals.take(i as int) =~= vals);
        }
    }
}

} // verus!
