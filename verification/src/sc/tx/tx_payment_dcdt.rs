//! Payments in DCDT tokens as the payment of a transaction.

use vstd::prelude::*;
use crate::sc::tx::function_call::FunctionCall;
use crate::sc::tx::tx_env::TxEnv;
use crate::sc::tx::tx_from::TxFrom;
use crate::sc::tx::tx_payment::{
    normalize_payment, transfer_execute_of, FullPaymentData, FullPaymentDataView, Moa,
    TransferExecute, TxPayment,
};
use crate::sc::tx::tx_to::TxToSpecified;
use crate::sc::types::ManagedAddress;
use crate::sc::types::dcdt_token_payment::{
    payments_view, DcdtTokenPayment, DcdtTokenPaymentRefs, MultiDcdtPayment,
};
use crate::sc::types::moa_or_multi_dcdt_payment::MoaOrMultiDcdtPayment;
use crate::types::big_uint::BigUint;

verus! {

impl<'a, Env> TxPayment<Env> for DcdtTokenPaymentRefs<'a> where Env: TxEnv {
    open spec fn spec_is_no_payment(&self) -> bool {
        self@.amount == 0
    }

    open spec fn spec_full_payment(&self) -> FullPaymentDataView {
        FullPaymentDataView { moa: None, multi_dcdt: seq![self@] }
    }

    fn is_no_payment(&self, env: &Env) -> (r: bool) {
        self.amount.is_zero()
    }

    fn perform_transfer_execute(
        self,
        env: &Env,
        to: &ManagedAddress,
        gas_limit: u64,
        fc: FunctionCall,
    ) -> (r: TransferExecute) {
        transfer_execute_of(self.into_full_payment_data(env), *to, gas_limit, fc)
    }

    fn with_normalized<From, To, F, R>(
        self,
        env: &Env,
        from: &From,
        to: To,
        fc: FunctionCall,
        f: F,
    ) -> (r: R) where
        From: TxFrom<Env>,
        To: TxToSpecified<Env>,
        F: FnOnce(&ManagedAddress, &BigUint, FunctionCall) -> R,
     {
        let from_addr = from.resolve_address(env);
        let to_addr = to.to_address(env);
        let full = self.into_full_payment_data(env);
        let (norm_to, norm_moa, norm_fc) = normalize_payment(full, from_addr, to_addr, fc);
        f(&norm_to, &norm_moa, norm_fc)
    }

    fn into_full_payment_data(self, env: &Env) -> (r: FullPaymentData) {
        let mut multi_dcdt: MultiDcdtPayment = Vec::new();
        multi_dcdt.push(self.to_owned_payment());
        let r = FullPaymentData { moa: None, multi_dcdt };
        assert(r@.multi_dcdt =~= seq![self@]);
        r
    }
}

impl<Env> TxPayment<Env> for DcdtTokenPayment where Env: TxEnv {
    open spec fn spec_is_no_payment(&self) -> bool {
        self@.amount == 0
    }

    open spec fn spec_full_payment(&self) -> FullPaymentDataView {
        FullPaymentDataView { moa: None, multi_dcdt: seq![self@] }
    }

    fn is_no_payment(&self, env: &Env) -> (r: bool) {
        self.as_refs().is_no_payment(env)
    }

    fn perform_transfer_execute(
        self,
        env: &Env,
        to: &ManagedAddress,
        gas_limit: u64,
        fc: FunctionCall,
    ) -> (r: TransferExecute) {
        self.as_refs().perform_transfer_execute(env, to, gas_limit, fc)
    }

    fn with_normalized<From, To, F, R>(
        self,
        env: &Env,
        from: &From,
        to: To,
        fc: FunctionCall,
        f: F,
    ) -> (r: R) where
        From: TxFrom<Env>,
        To: TxToSpecified<Env>,
        F: FnOnce(&ManagedAddress, &BigUint, FunctionCall) -> R,
     {
        self.as_refs().with_normalized(env, from, to, fc, f)
    }

    fn into_full_payment_data(self, env: &Env) -> (r: FullPaymentData) {
        let ghost payment = self@;
        let mut multi_dcdt: MultiDcdtPayment = Vec::new();
        multi_dcdt.push(self);
        let r = FullPaymentData { moa: None, multi_dcdt };
        assert(r@.multi_dcdt =~= seq![payment]);
        r
    }
}

impl<Env> TxPayment<Env> for MultiDcdtPayment where Env: TxEnv {
    open spec fn spec_is_no_payment(&self) -> bool {
        self@.len() == 0
    }

    open spec fn spec_full_payment(&self) -> FullPaymentDataView {
        FullPaymentDataView { moa: None, multi_dcdt: payments_view(self@) }
    }

    fn is_no_payment(&self, env: &Env) -> (r: bool) {
        self.is_empty()
    }

    fn perform_transfer_execute(
        self,
        env: &Env,
        to: &ManagedAddress,
        gas_limit: u64,
        fc: FunctionCall,
    ) -> (r: TransferExecute) {
        transfer_execute_of(self.into_full_payment_data(env), *to, gas_limit, fc)
    }

    fn with_normalized<From, To, F, R>(
        self,
        env: &Env,
        from: &From,
        to: To,
        fc: FunctionCall,
        f: F,
    ) -> (r: R) where
        From: TxFrom<Env>,
        To: TxToSpecified<Env>,
        F: FnOnce(&ManagedAddress, &BigUint, FunctionCall) -> R,
     {
        let from_addr = from.resolve_address(env);
        let to_addr = to.to_address(env);
        let full = self.into_full_payment_data(env);
        let (norm_to, norm_moa, norm_fc) = normalize_payment(full, from_addr, to_addr, fc);
        f(&norm_to, &norm_moa, norm_fc)
    }

    fn into_full_payment_data(self, env: &Env) -> (r: FullPaymentData) {
        FullPaymentData { moa: None, multi_dcdt: self }
    }
}

impl<Env> TxPayment<Env> for MoaOrMultiDcdtPayment where Env: TxEnv {
    open spec fn spec_is_no_payment(&self) -> bool {
        match self {
            MoaOrMultiDcdtPayment::Moa(amount) => amount@ == 0,
            MoaOrMultiDcdtPayment::MultiDcdt(payments) => payments@.len() == 0,
        }
    }

    open spec fn spec_full_payment(&self) -> FullPaymentDataView {
        match self {
            MoaOrMultiDcdtPayment::Moa(amount) => FullPaymentDataView {
                moa: Some(amount@),
                multi_dcdt: Seq::empty(),
            },
            MoaOrMultiDcdtPayment::MultiDcdt(payments) => FullPaymentDataView {
                moa: None,
                multi_dcdt: payments_view(payments@),
            },
        }
    }

    fn is_no_payment(&self, env: &Env) -> (r: bool) {
        match self {
            MoaOrMultiDcdtPayment::Moa(amount) => amount.is_zero(),
            MoaOrMultiDcdtPayment::MultiDcdt(payments) => payments.is_empty(),
        }
    }

    fn perform_transfer_execute(
        self,
        env: &Env,
        to: &ManagedAddress,
        gas_limit: u64,
        fc: FunctionCall,
    ) -> (r: TransferExecute) {
        match self {
            MoaOrMultiDcdtPayment::Moa(amount) => Moa(amount).perform_transfer_execute(
                env,
                to,
                gas_limit,
                fc,
            ),
            MoaOrMultiDcdtPayment::MultiDcdt(payments) => payments.perform_transfer_execute(
                env,
                to,
                gas_limit,
                fc,
            ),
        }
    }

    fn with_normalized<From, To, F, R>(
        self,
        env: &Env,
        from: &From,
        to: To,
        fc: FunctionCall,
        f: F,
    ) -> (r: R) where
        From: TxFrom<Env>,
        To: TxToSpecified<Env>,
        F: FnOnce(&ManagedAddress, &BigUint, FunctionCall) -> R,
     {
        match self {
            MoaOrMultiDcdtPayment::Moa(amount) => Moa(amount).with_normalized(env, from, to, fc, f),
            MoaOrMultiDcdtPayment::MultiDcdt(payments) => payments.with_normalized(
                env,
                from,
                to,
                fc,
                f,
            ),
        }
    }

    fn into_full_payment_data(self, env: &Env) -> (r: FullPaymentData) {
        match self {
            MoaOrMultiDcdtPayment::Moa(amount) => TxPayment::<Env>::into_full_payment_data(
                Moa(amount),
                env,
            ),
            MoaOrMultiDcdtPayment::MultiDcdt(payments) => TxPayment::<Env>::into_full_payment_data(
                payments,
                env,
            ),
        }
    }
}

} // verus!
