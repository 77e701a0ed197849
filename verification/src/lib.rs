//! Verified core of the Dharitri smart-contract toolkit.

pub mod chain_core;
pub mod contracts;
pub mod meta;
pub mod sc;
pub mod types;
pub mod vm;
