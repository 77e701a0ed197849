//! Execution of the ledger's builtin functions against a transaction cache.

pub mod blockchain_vm;
pub mod builtin_func_container;
pub mod builtin_func_trait;
pub mod dcdt_nft_add_uri;

pub use blockchain_vm::BlockchainVMRef;
pub use builtin_func_container::{BuiltinFunctionContainer, BuiltinFunctionItem};
pub use builtin_func_trait::BuiltinFunction;
pub use dcdt_nft_add_uri::DCDTNftAddUri;
