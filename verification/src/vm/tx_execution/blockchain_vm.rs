//! The execution context that builtin functions run in.

use vstd::prelude::*;
use crate::vm::tx_execution::builtin_func_container::BuiltinFunctionContainer;

verus! {

/// The virtual machine as a running function sees it.
pub struct BlockchainVMRef {
    pub builtin_functions: BuiltinFunctionContainer,
}

impl BlockchainVMRef {
    /// A virtual machine with the ledger's builtin functions.
    pub fn new() -> (r: Self)
        ensures
            r == (BlockchainVMRef { builtin_functions: BuiltinFunctionContainer }),
    {
        BlockchainVMRef { builtin_functions: BuiltinFunctionContainer }
    }
}

} // verus!
