//! Plain value types shared by the virtual machine and the transaction builder.

pub mod assoc;
pub mod be_arith;
pub mod big_uint;
pub mod bytes;
pub mod top_encode;
pub mod vm_address;

pub use big_uint::BigUint;
pub use top_encode::{top_decode_u64, top_encode_u64};
pub use vm_address::VMAddress;
