//! What every builtin function offers to the dispatcher.

use vstd::prelude::*;
use crate::chain_core::return_code::ReturnCode;
use crate::vm::tx_execution::blockchain_vm::BlockchainVMRef;
use crate::vm::tx_mock::blockchain_update::BlockchainUpdate;
use crate::vm::tx_mock::tx_cache::TxCache;
use crate::vm::tx_mock::tx_input::TxInput;
use crate::vm::tx_mock::tx_result::TxResult;

verus! {

/// A native operation of the ledger, called like a contract but executed by the virtual
/// machine itself.
pub trait BuiltinFunction {
    /// The name under which the function is called and under which its events are logged.
    spec fn spec_name(&self) -> Seq<char>;

    /// The least number of arguments that the function takes.
    spec fn min_arguments(&self) -> nat;

    /// The name under which the function is called and under which its events are logged.
    fn name(&self) -> (r: &str)
        ensures
            r@ == self.spec_name(),
    ;

    /// Runs the function on `tx_input` against `tx_cache`, and returns the outcome with the
    /// account changes to commit.
    ///
    /// The arguments are checked before any account is touched. A call with too few
    /// arguments fails. A failed call leaves no account change behind, and a call that
    /// went through leaves at least one. The hook `f` lets a caller interleave one more
    /// effect with the call; a function without such a need passes it by.
    fn execute<F>(
        &self,
        tx_input: TxInput,
        tx_cache: TxCache<'_>,
        vm: &BlockchainVMRef,
        f: F,
    ) -> (r: (TxResult, BlockchainUpdate)) where F: FnOnce()
        requires
            tx_cache.wf(),
        ensures
            r.1.wf(),
            tx_input.args@.len() < self.min_arguments() ==> r.0@.status != ReturnCode::Success,
            r.0@.status != ReturnCode::Success <==> r.1.spec_is_empty(),
    ;
}

} // verus!
