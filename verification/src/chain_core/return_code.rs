//! How a transaction ended.

use vstd::prelude::*;

verus! {

/// The status of an executed transaction.
#[derive(Clone, Copy, Debug, PartialEq, Eq, Structural)]
pub enum ReturnCode {
    Success,
    FunctionNotFound,
    FunctionWrongSignature,
    ContractNotFound,
    UserError,
    OutOfGas,
    AccountCollision,
    OutOfFunds,
    CallStackOverFlow,
    ContractInvalid,
    ExecutionFailed,
    UpgradeFailed,
    SimulateFailed,
}

impl ReturnCode {
    /// The number under which the ledger reports the status.
    pub open spec fn code(self) -> u64 {
        match self {
            ReturnCode::Success => 0,
            ReturnCode::FunctionNotFound => 1,
            ReturnCode::FunctionWrongSignature => 2,
            ReturnCode::ContractNotFound => 3,
            ReturnCode::UserError => 4,
            ReturnCode::OutOfGas => 5,
            ReturnCode::AccountCollision => 6,
            ReturnCode::OutOfFunds => 7,
            ReturnCode::CallStackOverFlow => 8,
            ReturnCode::ContractInvalid => 9,
            ReturnCode::ExecutionFailed => 10,
            ReturnCode::UpgradeFailed => 11,
            ReturnCode::SimulateFailed => 12,
        }
    }

    /// The number under which the ledger reports the status.
    pub fn as_u64(self) -> (r: u64)
        ensures
            r == self.code(),
    {
        match self {
            ReturnCode::Success => 0,
            ReturnCode::FunctionNotFound => 1,
            ReturnCode::FunctionWrongSignature => 2,
            ReturnCode::ContractNotFound => 3,
            ReturnCode::UserError => 4,
            ReturnCode::OutOfGas => 5,
            ReturnCode::AccountCollision => 6,
            ReturnCode::OutOfFunds => 7,
            ReturnCode::CallStackOverFlow => 8,
            ReturnCode::ContractInvalid => 9,
            ReturnCode::ExecutionFailed => 10,
            ReturnCode::UpgradeFailed => 11,
            ReturnCode::SimulateFailed => 12,
        }
    }

    /// Whether the transaction went through.
    pub fn is_success(self) -> (r: bool)
        ensures
            r == (self == ReturnCode::Success),
    {
        match self {
            ReturnCode::Success => true,
            _ => false,
        }
    }
}

} // verus!
