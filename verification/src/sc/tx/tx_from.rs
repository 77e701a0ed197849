//! Who sends a transaction.

use vstd::prelude::*;
use crate::sc::tx::tx_env::TxEnv;
use crate::sc::types::ManagedAddress;

verus! {

/// What can stand for the sender of a transaction.
pub trait TxFrom<Env> where Env: TxEnv {
    /// The sender's address.
    spec fn spec_address(&self, env: &Env) -> ManagedAddress;

    /// The sender's address.
    fn resolve_address(&self, env: &Env) -> (r: ManagedAddress)
        ensures
            r == self.spec_address(env),
    ;
}

/// A sender that was named, not left to the environment.
pub trait TxFromSpecified<Env>: TxFrom<Env> where Env: TxEnv {

}

impl<Env> TxFrom<Env> for () where Env: TxEnv {
    open spec fn spec_address(&self, env: &Env) -> ManagedAddress {
        env.spec_sender_address()
    }

    fn resolve_address(&self, env: &Env) -> (r: ManagedAddress) {
        env.resolve_sender_address()
    }
}

impl<Env> TxFrom<Env> for ManagedAddress where Env: TxEnv {
    open spec fn spec_address(&self, env: &Env) -> ManagedAddress {
        *self
    }

    fn resolve_address(&self, env: &Env) -> (r: ManagedAddress) {
        *self
    }
}

impl<Env> TxFromSpecified<Env> for ManagedAddress where Env: TxEnv {

}

impl<Env> TxFrom<Env> for &ManagedAddress where Env: TxEnv {
    open spec fn spec_address(&self, env: &Env) -> ManagedAddress {
        **self
    }

    fn resolve_address(&self, env: &Env) -> (r: ManagedAddress) {
        **self
    }
}

impl<Env> TxFromSpecified<Env> for &ManagedAddress where Env: TxEnv {

}

} // verus!
