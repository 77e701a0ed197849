//! To whom a transaction goes.

use vstd::prelude::*;
use crate::sc::tx::tx_env::TxEnv;
use crate::sc::types::ManagedAddress;

verus! {

/// What can stand for the recipient of a transaction; `()` where there is none yet.
pub trait TxTo<Env> where Env: TxEnv {

}

/// A recipient that was named.
pub trait TxToSpecified<Env>: TxTo<Env> where Env: TxEnv {
    /// The recipient's address.
    spec fn spec_address(&self) -> ManagedAddress;

    /// The recipient's address.
    fn to_address(&self, env: &Env) -> (r: ManagedAddress)
        ensures
            r == self.spec_address(),
    ;
}

impl<Env> TxTo<Env> for () where Env: TxEnv {

}

impl<Env> TxTo<Env> for ManagedAddress where Env: TxEnv {

}

impl<Env> TxToSpecified<Env> for ManagedAddress where Env: TxEnv {
    open spec fn spec_address(&self) -> ManagedAddress {
        *self
    }

    fn to_address(&self, env: &Env) -> (r: ManagedAddress) {
        *self
    }
}

impl<Env> TxTo<Env> for &ManagedAddress where Env: TxEnv {

}

impl<Env> TxToSpecified<Env> for &ManagedAddress where Env: TxEnv {
    open spec fn spec_address(&self) -> ManagedAddress {
        **self
    }

    fn to_address(&self, env: &Env) -> (r: ManagedAddress) {
        **self
    }
}

} // verus!
