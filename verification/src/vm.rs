//! The virtual machine's builtin functions, with the account store and the transaction
//! cache that they work on.

pub mod tx_execution;
pub mod tx_mock;
pub mod world_mock;
