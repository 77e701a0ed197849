//! A payment in MOA or in one DCDT token as the payment of a transaction.

use vstd::prelude::*;
use crate::sc::tx::function_call::FunctionCall;
use crate::sc::tx::tx_env::TxEnv;
use crate::sc::tx::tx_from::TxFrom;
use crate::sc::tx::tx_payment::{
    gives_for_normalized, normalized, takes_normalized, transfer_payment, FullPaymentData,
    FullPaymentDataView, Moa, TransferExecute, TransferExecuteView, TxPayment,
};
use crate::sc::tx::tx_to::TxToSpecified;
use crate::sc::types::ManagedAddress;
use crate::sc::types::dcdt_token_payment::{DcdtTokenPaymentRefs, DcdtTokenPaymentView};
use crate::sc::types::moa_or_dcdt_token_payment::{
    MoaOrDcdtTokenPayment, MoaOrDcdtTokenPaymentRefs, MoaOrDcdtTokenPaymentView,
};
use crate::types::big_uint::BigUint;

verus! {

/// What a payment in MOA or in one token comes to.
pub open spec fn moa_or_dcdt_full_payment(
    payment: MoaOrDcdtTokenPaymentView,
) -> FullPaymentDataView {
    match payment.token_identifier {
        None => FullPaymentDataView { moa: Some(payment.amount), multi_dcdt: Seq::empty() },
        Some(token_identifier) => FullPaymentDataView {
            moa: None,
            multi_dcdt: seq![
                DcdtTokenPaymentView {
                    token_identifier,
                    token_nonce: payment.token_nonce,
                    amount: payment.amount,
                },
            ],
        },
    }
}

impl<'a, Env> TxPayment<Env> for MoaOrDcdtTokenPaymentRefs<'a> where Env: TxEnv {
    open spec fn spec_is_no_payment(&self) -> bool {
        self@.amount == 0
    }

    open spec fn spec_full_payment(&self) -> FullPaymentDataView {
        moa_or_dcdt_full_payment(self@)
    }

    fn is_no_payment(&self, _env: &Env) -> (r: bool) {
        self.is_empty()
    }

    fn perform_transfer_execute(
        self,
        env: &Env,
        to: &ManagedAddress,
        gas_limit: u64,
        fc: FunctionCall,
    ) -> (r: TransferExecute) {
        let ghost call = fc@;
        let for_moa = |fc: FunctionCall, amount: &BigUint| -> (r: TransferExecute)
            ensures
                r@ == (TransferExecuteView {
                    to: *to,
                    payment: transfer_payment(
                        FullPaymentDataView { moa: Some(amount@), multi_dcdt: Seq::empty() },
                    ),
                    gas_limit,
                    function_call: fc@,
                }),
            { Moa(amount).perform_transfer_execute(env, to, gas_limit, fc) };
        let for_dcdt = |fc: FunctionCall, dcdt_payment: DcdtTokenPaymentRefs| -> (r:
            TransferExecute)
            ensures
                r@ == (TransferExecuteView {
                    to: *to,
                    payment: transfer_payment(
                        FullPaymentDataView { moa: None, multi_dcdt: seq![dcdt_payment@] },
                    ),
                    gas_limit,
                    function_call: fc@,
                }),
            { dcdt_payment.perform_transfer_execute(env, to, gas_limit, fc) };
        self.map_moa_or_dcdt(fc, for_moa, for_dcdt)
    }

    fn with_normalized<From, To, F, R>(
        self,
        env: &Env,
        from: &From,
        to: To,
        fc: FunctionCall,
        f: F,
    ) -> (r: R) where
        From: TxFrom<Env>,
        To: TxToSpecified<Env>,
        F: FnOnce(&ManagedAddress, &BigUint, FunctionCall) -> R,
     {
        let for_moa = |context: (To, FunctionCall, F), amount: &BigUint| -> (r: R)
            requires
                takes_normalized(
                    context.2,
                    normalized(
                        FullPaymentDataView { moa: Some(amount@), multi_dcdt: Seq::empty() },
                        from.spec_address(env),
                        context.0.spec_address(),
                        context.1@,
                    ),
                ),
            ensures
                gives_for_normalized(
                    context.2,
                    normalized(
                        FullPaymentDataView { moa: Some(amount@), multi_dcdt: Seq::empty() },
                        from.spec_address(env),
                        context.0.spec_address(),
                        context.1@,
                    ),
                    r,
                ),
            { Moa(amount).with_normalized(env, from, context.0, context.1, context.2) };
        let for_dcdt = |context: (To, FunctionCall, F), dcdt_payment: DcdtTokenPaymentRefs| -> (r:
            R)
            requires
                takes_normalized(
                    context.2,
                    normalized(
                        FullPaymentDataView { moa: None, multi_dcdt: seq![dcdt_payment@] },
                        from.spec_address(env),
                        context.0.spec_address(),
                        context.1@,
                    ),
                ),
            ensures
                gives_for_normalized(
                    context.2,
                    normalized(
                        FullPaymentDataView { moa: None, multi_dcdt: seq![dcdt_payment@] },
                        from.spec_address(env),
                        context.0.spec_address(),
                        context.1@,
                    ),
                    r,
                ),
            { dcdt_payment.with_normalized(env, from, context.0, context.1, context.2) };
        self.map_moa_or_dcdt((to, fc, f), for_moa, for_dcdt)
    }

    fn into_full_payment_data(self, env: &Env) -> (r: FullPaymentData) {
        let for_moa = |context: (), amount: &BigUint| -> (r: FullPaymentData)
            ensures
                r@ == (FullPaymentDataView { moa: Some(amount@), multi_dcdt: Seq::empty() }),
            { TxPayment::<Env>::into_full_payment_data(Moa(amount), env) };
        let for_dcdt = |context: (), dcdt_payment: DcdtTokenPaymentRefs| -> (r: FullPaymentData)
            ensures
                r@ == (FullPaymentDataView { moa: None, multi_dcdt: seq![dcdt_payment@] }),
            { TxPayment::<Env>::into_full_payment_data(dcdt_payment, env) };
        self.map_moa_or_dcdt((), for_moa, for_dcdt)
    }
}

impl<Env> TxPayment<Env> for MoaOrDcdtTokenPayment where Env: TxEnv {
    open spec fn spec_is_no_payment(&self) -> bool {
        self@.amount == 0
    }

    open spec fn spec_full_payment(&self) -> FullPaymentDataView {
        moa_or_dcdt_full_payment(self@)
    }

    fn is_no_payment(&self, env: &Env) -> (r: bool) {
        self.as_refs().is_no_payment(env)
    }

    fn perform_transfer_execute(
        self,
        env: &Env,
        to: &ManagedAddress,
        gas_limit: u64,
        fc: FunctionCall,
    ) -> (r: TransferExecute) {
        self.as_refs().perform_transfer_execute(env, to, gas_limit, fc)
    }

    fn with_normalized<From, To, F, R>(
        self,
        env: &Env,
        from: &From,
        to: To,
        fc: FunctionCall,
        f: F,
    ) -> (r: R) where
        From: TxFrom<Env>,
        To: TxToSpecified<Env>,
        F: FnOnce(&ManagedAddress, &BigUint, FunctionCall) -> R,
     {
        self.as_refs().with_normalized(env, from, to, fc, f)
    }

    fn into_full_payment_data(self, env: &Env) -> (r: FullPaymentData) {
        self.as_refs().into_full_payment_data(env)
    }
}

} // verus!
