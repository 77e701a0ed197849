//! Contracts written with the framework.

pub mod fwd_call_sync;
pub mod vault_proxy;

pub use fwd_call_sync::{ForwarderError, ForwarderSyncCallModule};
pub use vault_proxy::{VaultProxy, VaultProxyMethods};
