//! The messages with which a contract call is turned down.

use vstd::prelude::*;

verus! {

/// A call brought another number of token transfers than the endpoint takes.
pub const INCORRECT_NUM_DCDT_TRANSFERS: &'static str = "incorrect number of DCDT transfers";

/// A call brought a token that is not fungible where a fungible one is taken.
pub const FUNGIBLE_TOKEN_EXPECTED_ERR_MSG: &'static str = "fungible DCDT token expected";

} // verus!
