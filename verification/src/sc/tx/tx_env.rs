//! The environment in which a transaction is built and sent.

use vstd::prelude::*;
use crate::sc::tx::tx_from::TxFromSpecified;
use crate::sc::types::ManagedAddress;
use crate::sc::types::h256::H256;

verus! {

/// The gas limit of a transaction for which none was set.
pub const UNSPECIFIED_GAS_LIMIT: u64 = u64::MAX;

/// The environment in which a transaction is built and sent: a contract, a test, an
/// interactor.
pub trait TxEnv: Sized {
    /// The sender of a transaction for which none was set.
    spec fn spec_sender_address(&self) -> ManagedAddress;

    /// The gas limit of a transaction for which none was set.
    spec fn spec_default_gas_value(&self) -> u64;

    /// The sender of a transaction for which none was set.
    fn resolve_sender_address(&self) -> (r: ManagedAddress)
        ensures
            r == self.spec_sender_address(),
    ;

    /// The gas limit of a transaction for which none was set.
    fn default_gas_value(&self) -> (r: u64)
        ensures
            r == self.spec_default_gas_value(),
    ;
}

/// An environment that lets a test choose the address of the contract deployed next.
pub trait TxEnvMockDeployAddress: TxEnv {
    /// The chosen addresses, each with the deployer it was chosen for, oldest first.
    spec fn spec_mock_deploy_addresses(&self) -> Seq<(ManagedAddress, ManagedAddress)>;

    /// Chooses `new_address` for the contract that `from` deploys next.
    fn mock_deploy_new_address<From>(&mut self, from: &From, new_address: ManagedAddress) where
        From: TxFromSpecified<Self>,

        ensures
            final(self).spec_mock_deploy_addresses() == old(self).spec_mock_deploy_addresses().push(
                (from.spec_address(old(self)), new_address),
            ),
            final(self).spec_sender_address() == old(self).spec_sender_address(),
            final(self).spec_default_gas_value() == old(self).spec_default_gas_value(),
    ;
}

/// An environment that lets a test choose the hash of the transaction sent next.
pub trait TxEnvWithTxHash: TxEnv {
    /// The chosen hash, if one was chosen.
    spec fn spec_tx_hash(&self) -> Option<H256>;

    /// Chooses `tx_hash` for the transaction sent next.
    fn set_tx_hash(&mut self, tx_hash: H256)
        ensures
            final(self).spec_tx_hash() == Some(tx_hash),
            final(self).spec_sender_address() == old(self).spec_sender_address(),
            final(self).spec_default_gas_value() == old(self).spec_default_gas_value(),
    ;

    /// Takes the chosen hash out of the environment.
    fn take_tx_hash(&mut self) -> (r: Option<H256>)
        ensures
            r == old(self).spec_tx_hash(),
            final(self).spec_tx_hash() is None,
            final(self).spec_sender_address() == old(self).spec_sender_address(),
            final(self).spec_default_gas_value() == old(self).spec_default_gas_value(),
    ;
}

/// The environment of a running contract: transactions go out from the contract's own
/// address.
#[derive(Clone, Copy, Debug)]
pub struct TxScEnv {
    pub sc_address: ManagedAddress,
}

impl TxEnv for TxScEnv {
    open spec fn spec_sender_address(&self) -> ManagedAddress {
        self.sc_address
    }

    open spec fn spec_default_gas_value(&self) -> u64 {
        UNSPECIFIED_GAS_LIMIT
    }

    fn resolve_sender_address(&self) -> (r: ManagedAddress) {
        self.sc_address
    }

    fn default_gas_value(&self) -> (r: u64) {
        UNSPECIFIED_GAS_LIMIT
    }
}

/// The environment of a test: what the test chose for the transactions it sends.
#[derive(Clone, Debug)]
pub struct TxTestEnv {
    pub sender: ManagedAddress,
    pub default_gas: u64,
    pub tx_hash: Option<H256>,
    pub mock_deploy_addresses: Vec<(ManagedAddress, ManagedAddress)>,
}

impl TxTestEnv {
    /// A test environment in which nothing was chosen yet.
    pub fn new(sender: ManagedAddress, default_gas: u64) -> (r: Self)
        ensures
            r.sender == sender,
            r.default_gas == default_gas,
            r.tx_hash is None,
            r.mock_deploy_addresses@.len() == 0,
    {
        TxTestEnv { sender, default_gas, tx_hash: None, mock_deploy_addresses: Vec::new() }
    }
}

impl TxEnv for TxTestEnv {
    open spec fn spec_sender_address(&self) -> ManagedAddress {
        self.sender
    }

    open spec fn spec_default_gas_value(&self) -> u64 {
        self.default_gas
    }

    fn resolve_sender_address(&self) -> (r: ManagedAddress) {
        self.sender
    }

    fn default_gas_value(&self) -> (r: u64) {
        self.default_gas
    }
}

impl TxEnvMockDeployAddress for TxTestEnv {
    open spec fn spec_mock_deploy_addresses(&self) -> Seq<(ManagedAddress, ManagedAddress)> {
        self.mock_deploy_addresses@
    }

    fn mock_deploy_new_address<From>(&mut self, from: &From, new_address: ManagedAddress) where
        From: TxFromSpecified<Self>,
     {
        let deployer = from.resolve_address(&*self);
        self.mock_deploy_addresses.push((deployer, new_address));
    }
}

impl TxEnvWithTxHash for TxTestEnv {
    open spec fn spec_tx_hash(&self) -> Option<H256> {
        self.tx_hash
    }

    fn set_tx_hash(&mut self, tx_hash: H256) {
        self.tx_hash = Some(tx_hash);
    }

    fn take_tx_hash(&mut self) -> (r: Option<H256>) {
        let r = self.tx_hash;
        self.tx_hash = None;
        r
    }
}

} // verus!
