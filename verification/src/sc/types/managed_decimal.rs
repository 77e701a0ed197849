//! Amounts with a fixed number of decimals.

use vstd::prelude::*;
use crate::types::big_uint::BigUint;

verus! {

/// The number of decimals of the base currency.
pub const MOA_DECIMALS: usize = 18;

/// An amount given in units of `10` to the power `-num_decimals`.
#[derive(Clone, Debug)]
pub struct ManagedDecimal {
    pub data: BigUint,
    pub num_decimals: usize,
}

impl ManagedDecimal {
    /// The amount of `data` units of `10` to the power `-num_decimals`.
    pub fn from_raw_units(data: BigUint, num_decimals: usize) -> (r: Self)
        ensures
            r.data == data,
            r.num_decimals == num_decimals,
    {
        ManagedDecimal { data, num_decimals }
    }
}

} // verus!
