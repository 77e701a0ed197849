//! The account store: the ground truth that transactions read and, once committed, change.

use vstd::prelude::*;
use crate::types::vm_address::VMAddress;
use crate::vm::world_mock::account_data::{AccountData, AccountDataView};
use crate::vm::world_mock::account_map::AccountMap;

verus! {

/// The accounts of the ledger, at most one for each address.
#[derive(Clone, Debug)]
pub struct BlockchainState {
    pub accounts: AccountMap,
}

impl View for BlockchainState {
    type V = Map<Seq<u8>, AccountDataView>;

    open spec fn view(&self) -> Map<Seq<u8>, AccountDataView> {
        self.accounts@
    }
}

impl BlockchainState {
    /// The accounts are well formed, one for each address.
    pub open spec fn wf(&self) -> bool {
        self.accounts.wf()
    }

    /// A ledger without accounts.
    pub fn new() -> (r: Self)
        ensures
            r.wf(),
            r@ == Map::<Seq<u8>, AccountDataView>::empty(),
    {
        BlockchainState { accounts: AccountMap::new() }
    }

    /// Adds `account` to the ledger, in place of the account that its address had.
    pub fn add_account(&mut self, account: AccountData)
        requires
            old(self).wf(),
            account.wf(),
        ensures
            final(self).wf(),
            final(self)@ == old(self)@.insert(account.address@, account@),
    {
        self.accounts.insert(account);
    }

    /// The account at `address`, if the ledger has one.
    pub fn account(&self, address: &VMAddress) -> (r: Option<&AccountData>)
        requires
            self.wf(),
        ensures
            r is Some == self@.dom().contains(address@),
            r matches Some(account) ==> account.wf() && account@ == self@[address@],
    {
        self.accounts.get(address)
    }

    /// Writes every account of `accounts` into the ledger.
    pub fn update_accounts(&mut self, accounts: &AccountMap)
        requires
            old(self).wf(),
            accounts.wf(),
        ensures
            final(self).wf(),
            final(self)@ == old(self)@.union_prefer_right(accounts@),
    {
        self.accounts.extend(accounts);
    }
}

} // verus!
