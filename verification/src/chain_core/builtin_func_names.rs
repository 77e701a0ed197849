//! The names under which builtin functions are called.

use vstd::prelude::*;

verus! {

/// The builtin function that appends URIs to a token holding.
pub const DCDT_NFT_ADD_URI_FUNC_NAME: &'static str = "DCDTNFTAddURI";

/// The builtin function that transfers an amount of a fungible token.
pub const DCDT_TRANSFER_FUNC_NAME: &'static str = "DCDTTransfer";

/// The builtin function that transfers one non-fungible or semi-fungible token instance.
pub const DCDT_NFT_TRANSFER_FUNC_NAME: &'static str = "DCDTNFTTransfer";

/// The builtin function that transfers several tokens at once.
pub const DCDT_MULTI_TRANSFER_FUNC_NAME: &'static str = "MultiDCDTNFTTransfer";

} // verus!
