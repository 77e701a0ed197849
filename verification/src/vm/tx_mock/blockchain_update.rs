//! The account changes that one transaction leaves behind.

use vstd::prelude::*;
use crate::vm::world_mock::account_data::AccountDataView;
use crate::vm::world_mock::account_map::AccountMap;
use crate::vm::world_mock::blockchain_state::BlockchainState;

verus! {

/// The changed accounts of one transaction. They are written to the ledger together or not
/// at all.
#[derive(Clone, Debug)]
pub struct BlockchainUpdate {
    pub accounts: AccountMap,
}

impl View for BlockchainUpdate {
    type V = Map<Seq<u8>, AccountDataView>;

    open spec fn view(&self) -> Map<Seq<u8>, AccountDataView> {
        self.accounts@
    }
}

impl BlockchainUpdate {
    /// The changed accounts are well formed, one for each address.
    pub open spec fn wf(&self) -> bool {
        self.accounts.wf()
    }

    /// No account changes.
    pub open spec fn spec_is_empty(&self) -> bool {
        self@ == Map::<Seq<u8>, AccountDataView>::empty()
    }

    /// The update that changes nothing.
    pub fn empty() -> (r: Self)
        ensures
            r.wf(),
            r.spec_is_empty(),
    {
        BlockchainUpdate { accounts: AccountMap::new() }
    }

    /// Whether the update changes nothing.
    pub fn is_empty(&self) -> (r: bool)
        ensures
            r == self.spec_is_empty(),
    {
        self.accounts.is_empty()
    }

    /// Commits the update: every changed account replaces the account that the ledger has
    /// at its address, and no other account changes.
    pub fn apply(self, blockchain: &mut BlockchainState)
        requires
            self.wf(),
            old(blockchain).wf(),
        ensures
            final(blockchain).wf(),
            final(blockchain)@ == old(blockchain)@.union_prefer_right(self@),
    {
        blockchain.update_accounts(&self.accounts);
    }
}

} // verus!
