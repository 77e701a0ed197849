//! The registry of builtin functions.

use vstd::prelude::*;
use vstd::string::*;
use crate::chain_core::builtin_func_names::DCDT_NFT_ADD_URI_FUNC_NAME;
use crate::types::bytes::buffers_view;
use crate::vm::tx_execution::blockchain_vm::BlockchainVMRef;
use crate::vm::tx_execution::builtin_func_trait::BuiltinFunction;
use crate::vm::tx_execution::dcdt_nft_add_uri::{add_uri_outcome, DCDTNftAddUri};
use crate::vm::tx_mock::blockchain_update::BlockchainUpdate;
use crate::vm::tx_mock::tx_cache::TxCache;
use crate::vm::tx_mock::tx_input::TxInput;
use crate::vm::tx_mock::tx_result::TxResult;

verus! {

/// The builtin functions that are registered, one variant for each.
pub enum BuiltinFunctionItem {
    DcdtNftAddUri(DCDTNftAddUri),
}

impl BuiltinFunction for BuiltinFunctionItem {
    open spec fn spec_name(&self) -> Seq<char> {
        match self {
            BuiltinFunctionItem::DcdtNftAddUri(function) => function.spec_name(),
        }
    }

    open spec fn min_arguments(&self) -> nat {
        match self {
            BuiltinFunctionItem::DcdtNftAddUri(function) => function.min_arguments(),
        }
    }

    fn name(&self) -> (r: &str) {
        match self {
            BuiltinFunctionItem::DcdtNftAddUri(function) => function.name(),
        }
    }

    fn execute<F>(
        &self,
        tx_input: TxInput,
        tx_cache: TxCache<'_>,
        vm: &BlockchainVMRef,
        f: F,
    ) -> (r: (TxResult, BlockchainUpdate)) where F: FnOnce()
        ensures
            self is DcdtNftAddUri ==> (r.0@, r.1@) == add_uri_outcome(
                tx_input.from@,
                buffers_view(tx_input.args@),
                tx_cache.overlay(),
                tx_cache.source(),
            ),
    {
        match self {
            BuiltinFunctionItem::DcdtNftAddUri(function) => function.execute(
                tx_input,
                tx_cache,
                vm,
                f,
            ),
        }
    }
}

/// The registry of builtin functions: at most one function for each name, fixed when the
/// program is built.
pub struct BuiltinFunctionContainer;

impl BuiltinFunctionContainer {
    /// The names that have a builtin function.
    pub open spec fn is_registered(function_name: Seq<char>) -> bool {
        function_name == DCDT_NFT_ADD_URI_FUNC_NAME@
    }

    /// The builtin function registered under `function_name`. `None` says that the name is
    /// no builtin function, and the caller is to try a contract call.
    pub fn lookup(&self, function_name: &str) -> (r: Option<BuiltinFunctionItem>)
        ensures
            r is Some <==> Self::is_registered(function_name@),
            r matches Some(function) ==> function.spec_name() == function_name@,
    {
        if function_name.to_owned() == DCDT_NFT_ADD_URI_FUNC_NAME.to_owned() {
            Some(BuiltinFunctionItem::DcdtNftAddUri(DCDTNftAddUri))
        } else {
            None
        }
    }
}

} // verus!
