//! Typed access to the endpoints of a contract.

use vstd::prelude::*;
use crate::sc::tx::tx::Tx;
use crate::sc::tx::tx_env::TxEnv;
use crate::sc::tx::tx_from::TxFrom;
use crate::sc::tx::tx_gas::TxGas;
use crate::sc::tx::tx_to::TxTo;

verus! {

/// A proxy of a contract: it turns a transaction that has no payment and no data yet into
/// an object with one method for each endpoint of the contract.
pub trait TxProxyTrait<Env, From, To, Gas> where
    Env: TxEnv,
    From: TxFrom<Env>,
    To: TxTo<Env>,
    Gas: TxGas<Env>,
 {
    /// The object with the endpoint methods.
    type TxProxyMethods;

    /// The object with the endpoint methods, around `tx`.
    spec fn spec_proxy_methods(
        self,
        tx: Tx<Env, From, To, (), Gas, (), ()>,
    ) -> Self::TxProxyMethods;

    /// The object with the endpoint methods, around `tx`.
    fn proxy_methods(self, tx: Tx<Env, From, To, (), Gas, (), ()>) -> (r: Self::TxProxyMethods)
        ensures
            r == self.spec_proxy_methods(tx),
    ;
}

} // verus!
