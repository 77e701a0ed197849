//! The input of a transaction.

use vstd::prelude::*;
use crate::types::big_uint::BigUint;
use crate::types::vm_address::VMAddress;

verus! {

/// What the dispatcher hands to a function: who calls whom, with which arguments, value and
/// gas. The arguments are raw byte buffers; each function reads them by position.
#[derive(Clone, Debug)]
pub struct TxInput {
    pub from: VMAddress,
    pub to: VMAddress,
    pub moa_value: BigUint,
    pub func_name: String,
    pub args: Vec<Vec<u8>>,
    pub gas_limit: u64,
}

impl TxInput {
    /// A call of `func_name` from `from` to `to`, without arguments, value or gas.
    pub fn new(from: VMAddress, to: VMAddress, func_name: String) -> (r: Self)
        ensures
            r.from == from,
            r.to == to,
            r.func_name == func_name,
            r.moa_value@ == 0,
            r.args@.len() == 0,
            r.gas_limit == 0,
    {
        TxInput { from, to, moa_value: BigUint::zero(), func_name, args: Vec::new(), gas_limit: 0 }
    }
}

} // verus!
