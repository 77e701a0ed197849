//! The smart-contract framework: payments, call values and the transaction builder.

pub mod call_value_wrapper;
pub mod contract_call;
pub mod err_msg;
pub mod tx;
pub mod types;

pub use call_value_wrapper::{CallValueError, CallValueWrapper};
