//! The ledger's account store: accounts, their balances and their token holdings.

pub mod account_data;
pub mod account_map;
pub mod blockchain_state;
pub mod dcdt_data;
pub mod dcdt_instance;

pub use account_data::{AccountData, AccountDataView};
pub use account_map::AccountMap;
pub use blockchain_state::BlockchainState;
pub use dcdt_data::AccountDcdt;
pub use dcdt_instance::{DcdtInstance, DcdtInstanceView};
