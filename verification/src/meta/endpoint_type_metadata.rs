//! The kinds of endpoints that a contract has.

use vstd::prelude::*;

verus! {

/// The path of the ABI's endpoint type `Init`.
pub const ENDPOINT_TYPE_ABI_INIT: &'static str = "dharitri_sc::abi::EndpointTypeAbi::Init";

/// The path of the ABI's endpoint type `Upgrade`.
pub const ENDPOINT_TYPE_ABI_UPGRADE: &'static str = "dharitri_sc::abi::EndpointTypeAbi::Upgrade";

/// The path of the ABI's endpoint type `Endpoint`.
pub const ENDPOINT_TYPE_ABI_ENDPOINT: &'static str = "dharitri_sc::abi::EndpointTypeAbi::Endpoint";

/// The path of the ABI's endpoint type `PromisesCallback`.
pub const ENDPOINT_TYPE_ABI_PROMISES_CALLBACK: &'static str =
    "dharitri_sc::abi::EndpointTypeAbi::PromisesCallback";

/// Used to generate the EndpointType in the ABI.
#[derive(Clone, Copy, Debug, PartialEq, Eq, Structural)]
pub enum EndpointTypeMetadata {
    Init,
    Upgrade,
    Endpoint,
    PromisesCallback,
}

impl EndpointTypeMetadata {
    /// The path of the ABI's endpoint type that generated code names for this kind.
    pub open spec fn spec_abi_path(&self) -> Seq<char> {
        match self {
            EndpointTypeMetadata::Init => ENDPOINT_TYPE_ABI_INIT@,
            EndpointTypeMetadata::Upgrade => ENDPOINT_TYPE_ABI_UPGRADE@,
            EndpointTypeMetadata::Endpoint => ENDPOINT_TYPE_ABI_ENDPOINT@,
            EndpointTypeMetadata::PromisesCallback => ENDPOINT_TYPE_ABI_PROMISES_CALLBACK@,
        }
    }

    /// The path of the ABI's endpoint type that generated code names for this kind.
    pub fn abi_path(&self) -> (r: &'static str)
        ensures
            r@ == self.spec_abi_path(),
    {
        match self {
            EndpointTypeMetadata::Init => ENDPOINT_TYPE_ABI_INIT,
            EndpointTypeMetadata::Upgrade => ENDPOINT_TYPE_ABI_UPGRADE,
            EndpointTypeMetadata::Endpoint => ENDPOINT_TYPE_ABI_ENDPOINT,
            EndpointTypeMetadata::PromisesCallback => ENDPOINT_TYPE_ABI_PROMISES_CALLBACK,
        }
    }
}

} // verus!
