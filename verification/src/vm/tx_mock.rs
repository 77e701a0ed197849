//! What goes into and comes out of the execution of one transaction.

pub mod blockchain_update;
pub mod tx_cache;
pub mod tx_input;
pub mod tx_log;
pub mod tx_result;

pub use blockchain_update::BlockchainUpdate;
pub use tx_cache::TxCache;
pub use tx_input::TxInput;
pub use tx_log::{TxLog, TxLogView};
pub use tx_result::{TxResult, TxResultView};
