//! Contract calls and deploys as plain records, and how transactions turn into them.

use vstd::prelude::*;
use vstd::std_specs::convert::FromSpecImpl;
use core::marker::PhantomData;
use crate::sc::tx::function_call::FunctionCall;
use crate::sc::tx::tx::Tx;
use crate::sc::tx::tx_data::DeployCall;
use crate::sc::tx::tx_env::{TxScEnv, UNSPECIFIED_GAS_LIMIT};
use crate::sc::tx::tx_from::TxFrom;
use crate::sc::tx::tx_payment::{normalized, NormalizedTxView, TxPayment, TxPaymentMoaOnly};
use crate::sc::tx::tx_result_handler::OriginalResultMarker;
use crate::sc::tx::tx_to::{TxTo, TxToSpecified};
use crate::sc::types::{ManagedAddress, ManagedArgBuffer};
use crate::types::big_uint::BigUint;

verus! {

/// A contract call without payment: recipient, function call and gas limit.
pub struct ContractCallNoPayment<OriginalResult> {
    pub to: ManagedAddress,
    pub function_call: FunctionCall,
    pub explicit_gas_limit: u64,
    pub _return_type: PhantomData<OriginalResult>,
}

/// A contract call that pays MOA.
pub struct ContractCallWithMoa<OriginalResult> {
    pub basic: ContractCallNoPayment<OriginalResult>,
    pub moa_payment: BigUint,
}

/// A contract deploy: the MOA it pays, its gas limit and its arguments.
pub struct ContractDeploy<OriginalResult> {
    pub to: Option<ManagedAddress>,
    pub moa_payment: BigUint,
    pub explicit_gas_limit: u64,
    pub arg_buffer: ManagedArgBuffer,
    pub _return_type: PhantomData<OriginalResult>,
}

/// What can be turned into a contract call that pays MOA only.
pub trait ContractCallBase: Sized {
    /// The type that the called function returns.
    type OriginalResult;

    /// The transaction that the ledger takes for the call.
    spec fn spec_normalized(self) -> NormalizedTxView;

    /// The call as one that pays MOA only, with token payments turned into builtin function
    /// calls. No gas limit is set.
    fn into_normalized(self) -> (r: ContractCallWithMoa<Self::OriginalResult>)
        ensures
            (NormalizedTxView {
                to: r.basic.to,
                moa: r.moa_payment@,
                function_call: r.basic.function_call@,
            }) == self.spec_normalized(),
            r.basic.explicit_gas_limit == UNSPECIFIED_GAS_LIMIT,
    ;
}

impl<To, Payment, OriginalResult> From<
    Tx<
        TxScEnv,
        (),
        To,
        Payment,
        (),
        DeployCall<TxScEnv, ()>,
        OriginalResultMarker<OriginalResult>,
    >,
> for ContractDeploy<OriginalResult> where To: TxTo<TxScEnv>, Payment: TxPaymentMoaOnly<TxScEnv> {
    /// The deploy that the transaction stands for: it pays the MOA of the transaction,
    /// carries its arguments, names no address and sets no gas limit.
    fn from(
        value: Tx<
            TxScEnv,
            (),
            To,
            Payment,
            (),
            DeployCall<TxScEnv, ()>,
            OriginalResultMarker<OriginalResult>,
        >,
    ) -> (r: Self)
        ensures
            r.to is None,
            r.moa_payment@ == value.payment.spec_moa_value(),
            r.explicit_gas_limit == UNSPECIFIED_GAS_LIMIT,
            r.arg_buffer == value.data.arg_buffer,
    {
        ContractDeploy {
            to: None,
            moa_payment: value.payment.into_moa_payment(&value.env),
            explicit_gas_limit: UNSPECIFIED_GAS_LIMIT,
            arg_buffer: value.data.arg_buffer,
            _return_type: PhantomData,
        }
    }
}

// The conversion makes a new amount, so no spec function gives its result: what it returns
// is stated by the `ensures` of `from`.
impl<To, Payment, OriginalResult> FromSpecImpl<
    Tx<
        TxScEnv,
        (),
        To,
        Payment,
        (),
        DeployCall<TxScEnv, ()>,
        OriginalResultMarker<OriginalResult>,
    >,
> for ContractDeploy<OriginalResult> where To: TxTo<TxScEnv>, Payment: TxPaymentMoaOnly<TxScEnv> {
    open spec fn obeys_from_spec() -> bool {
        false
    }

    open spec fn from_spec(
        value: Tx<
            TxScEnv,
            (),
            To,
            Payment,
            (),
            DeployCall<TxScEnv, ()>,
            OriginalResultMarker<OriginalResult>,
        >,
    ) -> Self {
        arbitrary()
    }
}

impl<To, Payment, OriginalResult> ContractCallBase for Tx<
    TxScEnv,
    (),
    To,
    Payment,
    (),
    FunctionCall,
    OriginalResultMarker<OriginalResult>,
> where To: TxToSpecified<TxScEnv>, Payment: TxPayment<TxScEnv> {
    type OriginalResult = OriginalResult;

    open spec fn spec_normalized(self) -> NormalizedTxView {
        normalized(
            self.payment.spec_full_payment(),
            self.from.spec_address(&self.env),
            self.to.spec_address(),
            self.data@,
        )
    }

    fn into_normalized(self) -> (r: ContractCallWithMoa<OriginalResult>) {
        let build = |norm_to: &ManagedAddress, norm_moa: &BigUint, norm_fc: FunctionCall| -> (r:
            ContractCallWithMoa<OriginalResult>)
            ensures
                r.basic.to == *norm_to,
                r.moa_payment@ == norm_moa@,
                r.basic.function_call@ == norm_fc@,
                r.basic.explicit_gas_limit == UNSPECIFIED_GAS_LIMIT,
            {
                ContractCallWithMoa {
                    basic: ContractCallNoPayment {
                        to: *norm_to,
                        function_call: norm_fc.duplicate(),
                        explicit_gas_limit: UNSPECIFIED_GAS_LIMIT,
                        _return_type: PhantomData,
                    },
                    moa_payment: norm_moa.duplicate(),
                }
            };
        self.payment.with_normalized(&self.env, &self.from, self.to, self.data, build)
    }
}

} // verus!
