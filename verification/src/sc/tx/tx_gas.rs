//! How much gas a transaction may use.

use vstd::prelude::*;
use crate::sc::tx::tx_env::TxEnv;

verus! {

/// What can stand for the gas limit of a transaction; `()` leaves it to the environment.
pub trait TxGas<Env> where Env: TxEnv {
    /// The gas limit.
    spec fn spec_gas_value(&self, env: &Env) -> u64;

    /// The gas limit.
    fn gas_value(&self, env: &Env) -> (r: u64)
        ensures
            r == self.spec_gas_value(env),
    ;
}

/// What can be given as an explicit gas limit.
pub trait TxGasValue<Env> where Env: TxEnv {
    /// The gas limit.
    spec fn spec_value(&self) -> u64;

    /// The gas limit.
    fn to_value(&self, env: &Env) -> (r: u64)
        ensures
            r == self.spec_value(),
    ;
}

/// A gas limit that was set.
#[derive(Clone, Copy, Debug)]
pub struct ExplicitGas<GasValue>(pub GasValue);

impl<Env> TxGas<Env> for () where Env: TxEnv {
    open spec fn spec_gas_value(&self, env: &Env) -> u64 {
        env.spec_default_gas_value()
    }

    fn gas_value(&self, env: &Env) -> (r: u64) {
        env.default_gas_value()
    }
}

impl<Env> TxGasValue<Env> for u64 where Env: TxEnv {
    open spec fn spec_value(&self) -> u64 {
        *self
    }

    fn to_value(&self, env: &Env) -> (r: u64) {
        *self
    }
}

impl<Env, GasValue> TxGas<Env> for ExplicitGas<GasValue> where
    Env: TxEnv,
    GasValue: TxGasValue<Env>,
 {
    open spec fn spec_gas_value(&self, env: &Env) -> u64 {
        self.0.spec_value()
    }

    fn gas_value(&self, env: &Env) -> (r: u64) {
        self.0.to_value(env)
    }
}

} // verus!
