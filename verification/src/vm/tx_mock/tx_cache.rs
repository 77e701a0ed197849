//! The transactional overlay through which a transaction reads and changes accounts.

use vstd::prelude::*;
use crate::types::vm_address::VMAddress;
use crate::vm::tx_mock::blockchain_update::BlockchainUpdate;
use crate::vm::world_mock::account_data::{AccountData, AccountDataView};
use crate::vm::world_mock::account_map::AccountMap;
use crate::vm::world_mock::blockchain_state::BlockchainState;

verus! {

/// The account that a reader sees at `address`: the changed one if there is one, else the
/// ledger's, else a fresh account.
pub open spec fn visible_account(
    overlay: Map<Seq<u8>, AccountDataView>,
    source: Map<Seq<u8>, AccountDataView>,
    address: Seq<u8>,
) -> AccountDataView {
    if overlay.dom().contains(address) {
        overlay[address]
    } else if source.dom().contains(address) {
        source[address]
    } else {
        AccountDataView::empty(address)
    }
}

/// A write is seen by every later read: once `account` was written at `address`, a reader
/// sees `account` there, and at every other address what was seen before.
pub proof fn lemma_read_your_writes(
    overlay: Map<Seq<u8>, AccountDataView>,
    source: Map<Seq<u8>, AccountDataView>,
    address: Seq<u8>,
    account: AccountDataView,
    other: Seq<u8>,
)
    ensures
        visible_account(overlay.insert(address, account), source, address) == account,
        other != address ==> visible_account(overlay.insert(address, account), source, other)
            == visible_account(overlay, source, other),
{
}

/// A copy-on-write overlay over the ledger, for the time of one transaction and the calls
/// nested in it. Reads fall through to the ledger; writes land in the overlay only.
pub struct TxCache<'a> {
    source: &'a BlockchainState,
    accounts: AccountMap,
}

impl<'a> TxCache<'a> {
    /// The ledger that the cache reads through to.
    pub closed spec fn source(&self) -> Map<Seq<u8>, AccountDataView> {
        self.source@
    }

    /// The accounts changed so far.
    pub closed spec fn overlay(&self) -> Map<Seq<u8>, AccountDataView> {
        self.accounts@
    }

    /// Ledger and overlay are well formed.
    pub closed spec fn wf(&self) -> bool {
        self.source.wf() && self.accounts.wf()
    }

    /// The account that a reader sees at `address`.
    pub open spec fn account_at(&self, address: Seq<u8>) -> AccountDataView {
        visible_account(self.overlay(), self.source(), address)
    }

    /// A cache over `source` with nothing changed yet.
    pub fn new(source: &'a BlockchainState) -> (r: Self)
        requires
            source.wf(),
        ensures
            r.wf(),
            r.source() == source@,
            r.overlay() == Map::<Seq<u8>, AccountDataView>::empty(),
    {
        TxCache { source, accounts: AccountMap::new() }
    }

    /// Every account is seen under its own address.
    pub proof fn lemma_account_at_address(&self, address: Seq<u8>)
        requires
            self.wf(),
        ensures
            self.account_at(address).address == address,
    {
        if self.accounts@.dom().contains(address) {
            self.accounts.lemma_keyed_by_address(address);
        } else if self.source@.dom().contains(address) {
            self.source.accounts.lemma_keyed_by_address(address);
        }
    }

    /// Reads the account at `address`: a copy of the changed account if there is one, else
    /// of the ledger's, else a fresh account. The cache does not change.
    pub fn with_account(&self, address: &VMAddress) -> (r: AccountData)
        requires
            self.wf(),
        ensures
            r.wf(),
            r@ == self.account_at(address@),
            r.address@ == address@,
    {
        proof {
            self.lemma_account_at_address(address@);
        }
        match self.accounts.get(address) {
            Some(account) => account.duplicate(),
            None => match self.source.account(address) {
                Some(account) => account.duplicate(),
                None => AccountData::new_empty(*address),
            },
        }
    }

    /// Changes the account at `address` by `f`, which gets the account as a reader sees it
    /// and returns what it becomes. The result lands in the overlay; the ledger and all
    /// other accounts stay as they are.
    pub fn with_account_mut<F>(&mut self, address: &VMAddress, f: F) where
        F: FnOnce(AccountData) -> AccountData,

        requires
            old(self).wf(),
            forall|account: AccountData|
                account.wf() && account@ == old(self).account_at(address@) ==> f.requires(
                    (account,),
                ),
            forall|account: AccountData, changed: AccountData|
                account.wf() && account@ == old(self).account_at(address@) && f.ensures(
                    (account,),
                    changed,
                ) ==> changed.wf() && changed.address@ == account.address@,
        ensures
            final(self).wf(),
            final(self).source() == old(self).source(),
            exists|account: AccountData, changed: AccountData|
                account.wf() && account@ == old(self).account_at(address@) && f.ensures(
                    (account,),
                    changed,
                ) && final(self).overlay() == old(self).overlay().insert(address@, changed@),
    {
        let account = self.with_account(address);
        let changed = f(account);
        self.accounts.insert(changed);
    }

    /// Puts `account` into the overlay, in place of what its address had there.
    pub fn insert_account(&mut self, account: AccountData)
        requires
            old(self).wf(),
            account.wf(),
        ensures
            final(self).wf(),
            final(self).source() == old(self).source(),
            final(self).overlay() == old(self).overlay().insert(account.address@, account@),
    {
        self.accounts.insert(account);
    }

    /// Ends the transaction: the changed accounts, for the caller to commit or drop.
    pub fn into_blockchain_updates(self) -> (r: BlockchainUpdate)
        requires
            self.wf(),
        ensures
            r.wf(),
            r@ == self.overlay(),
    {
        BlockchainUpdate { accounts: self.accounts }
    }
}

} // verus!
