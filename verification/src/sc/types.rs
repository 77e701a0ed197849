//! The values that contracts and transactions are made of.

pub mod code_metadata;
pub mod dcdt_token_payment;
pub mod h256;
pub mod managed_decimal;
pub mod moa_or_dcdt_token_identifier;
pub mod moa_or_dcdt_token_payment;
pub mod moa_or_multi_dcdt_payment;

pub use crate::types::big_uint::BigUint;
pub use crate::types::vm_address::VMAddress;
pub use code_metadata::CodeMetadata;
pub use h256::H256;
pub use dcdt_token_payment::{
    payments_view, DcdtTokenPayment, DcdtTokenPaymentRefs, DcdtTokenPaymentView, MultiDcdtPayment,
};
pub use managed_decimal::ManagedDecimal;
pub use moa_or_dcdt_token_identifier::MoaOrDcdtTokenIdentifier;
pub use moa_or_dcdt_token_payment::{
    MoaOrDcdtTokenPayment, MoaOrDcdtTokenPaymentRefs, MoaOrDcdtTokenPaymentView,
};
pub use moa_or_multi_dcdt_payment::{MoaOrMultiDcdtPayment, MoaOrMultiDcdtPaymentView};

use vstd::prelude::*;

verus! {

/// The address of an account.
pub type ManagedAddress = VMAddress;

/// A byte buffer.
pub type ManagedBuffer = Vec<u8>;

/// A list of items.
pub type ManagedVec<T> = Vec<T>;

/// The arguments of a call, each a serialized value.
pub type ManagedArgBuffer = Vec<Vec<u8>>;

/// The name of a token class.
pub type TokenIdentifier = Vec<u8>;

} // verus!
