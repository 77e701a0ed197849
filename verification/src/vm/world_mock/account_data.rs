//! One account of the ledger.

use vstd::prelude::*;
use crate::types::big_uint::BigUint;
use crate::types::vm_address::VMAddress;
use crate::vm::world_mock::dcdt_data::AccountDcdt;
use crate::vm::world_mock::dcdt_instance::DcdtInstanceView;

verus! {

/// What an account is: its address, its transaction counter, its balance in the base
/// currency and its token holdings.
pub struct AccountDataView {
    pub address: Seq<u8>,
    pub nonce: u64,
    pub moa_balance: nat,
    pub dcdt: Map<(Seq<u8>, u64), DcdtInstanceView>,
}

impl AccountDataView {
    /// The account that an address has before anything was recorded for it.
    pub open spec fn empty(address: Seq<u8>) -> AccountDataView {
        AccountDataView { address, nonce: 0, moa_balance: 0, dcdt: Map::empty() }
    }
}

/// One account of the ledger.
#[derive(Clone, Debug)]
pub struct AccountData {
    pub address: VMAddress,
    pub nonce: u64,
    pub moa_balance: BigUint,
    pub dcdt: AccountDcdt,
}

impl View for AccountData {
    type V = AccountDataView;

    open spec fn view(&self) -> AccountDataView {
        AccountDataView {
            address: self.address@,
            nonce: self.nonce,
            moa_balance: self.moa_balance@,
            dcdt: self.dcdt@,
        }
    }
}

impl AccountData {
    /// The token holdings are well formed.
    pub open spec fn wf(&self) -> bool {
        self.dcdt.wf()
    }

    /// A fresh account at `address`: no balance, no holdings.
    pub fn new_empty(address: VMAddress) -> (r: Self)
        ensures
            r.wf(),
            r@ == AccountDataView::empty(address@),
    {
        AccountData { address, nonce: 0, moa_balance: BigUint::zero(), dcdt: AccountDcdt::new() }
    }

    /// A copy of the account.
    pub fn duplicate(&self) -> (r: Self)
        requires
            self.wf(),
        ensures
            r.wf(),
            r@ == self@,
    {
        AccountData {
            address: self.address,
            nonce: self.nonce,
            moa_balance: self.moa_balance.duplicate(),
            dcdt: self.dcdt.duplicate(),
        }
    }
}

} // verus!
