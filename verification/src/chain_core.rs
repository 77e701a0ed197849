//! Names and codes that the ledger fixes.

pub mod builtin_func_names;
pub mod return_code;

pub use return_code::ReturnCode;
