//! A contract that forwards what it is called with to a vault contract, in calls that it
//! waits for. Each endpoint says here which call it sends; sending it is left to the host.

use vstd::prelude::*;
use vstd::string::*;
use crate::contracts::vault_proxy::{
    token_argument, VaultProxy, ACCEPT_FUNDS, ACCEPT_FUNDS_ECHO_PAYMENT, CALL_COUNTS,
    ECHO_ARGUMENTS, RETRIEVE_FUNDS, RETRIEVE_FUNDS_MOA_OR_SINGLE_DCDT, RETRIEVE_FUNDS_MULTI_DCDT,
    RETRIEVE_FUNDS_WITH_TRANSFER_EXEC,
};
use crate::sc::call_value_wrapper::{CallValueError, CallValueWrapper};
use crate::sc::tx::function_call::FunctionCall;
use crate::sc::tx::tx::{Tx, TxBaseWithEnv};
use crate::sc::tx::tx_env::TxScEnv;
use crate::sc::tx::tx_gas::ExplicitGas;
use crate::sc::tx::tx_payment::{Moa, NotPayable};
use crate::sc::tx::tx_result_handler::{
    ConsRet, OriginalResultMarker, ReturnsBackTransfersMOA, ReturnsBackTransfersMultiDCDT,
    ReturnsBackTransfersSingleDCDT, ReturnsResult,
};
use crate::sc::types::ManagedAddress;
use crate::sc::types::dcdt_token_payment::{
    duplicate_payments, payments_view, DcdtTokenPayment, DcdtTokenPaymentView, MultiDcdtPayment,
};
use crate::sc::types::moa_or_dcdt_token_identifier::MoaOrDcdtTokenIdentifier;
use crate::sc::types::moa_or_dcdt_token_payment::MoaOrDcdtTokenPayment;
use crate::types::big_uint::BigUint;
use crate::types::bytes::buffers_view;
use crate::types::top_encode::minimal_be;

verus! {

/// The number that stands for the whole where fees are given as a share: 100%.
pub const PERCENTAGE_TOTAL: u32 = 10_000;

/// The name of the endpoint through which the contract takes funds that it asked back.
pub const ACCEPT_FUNDS_FUNC: &'static str = "accept_funds_func";

/// Why an endpoint stops before it sends its call.
#[derive(Clone, Copy, Debug, PartialEq, Eq, Structural)]
pub enum ForwarderError {
    /// The payment of the call is not what the endpoint takes.
    CallValue(CallValueError),
    /// The fees come to more than the payment.
    FeesExceedPayment,
}

/// The fees on `payment` at the share `percentage_fees` of `PERCENTAGE_TOTAL`, rounded down.
pub open spec fn fees_on(payment: nat, percentage_fees: nat) -> nat {
    payment * percentage_fees / (PERCENTAGE_TOTAL as nat)
}

/// The fees on `payment` at the share `percentage_fees`, and what is left of the payment;
/// none where the fees come to more than the payment.
pub fn split_fees(payment: &BigUint, percentage_fees: &BigUint) -> (r: Option<(BigUint, BigUint)>)
    ensures
        r is Some <==> fees_on(payment@, percentage_fees@) <= payment@,
        r matches Some(pair) ==> pair.0@ == fees_on(payment@, percentage_fees@) && pair.1@
            == payment@ - fees_on(payment@, percentage_fees@),
{
    let product = payment.times(percentage_fees);
    let fees = match product.div_rem_u32(PERCENTAGE_TOTAL) {
        Some(pair) => pair.0,
        None => {
            return None;
        },
    };
    match payment.checked_minus(&fees) {
        Some(amount_to_send) => Some((fees, amount_to_send)),
        None => None,
    }
}

/// What an endpoint of the forwarder sees when it starts: the contract's environment, the
/// gas that is left, and what the call paid.
pub struct ForwarderSyncCallModule {
    pub env: TxScEnv,
    pub gas_left: u64,
    pub call_value: CallValueWrapper,
}

/// A call of the vault that asks for the decoded result.
pub type VaultCall<'a, Payment, Gas, Original> = Tx<
    TxScEnv,
    (),
    &'a ManagedAddress,
    Payment,
    Gas,
    FunctionCall,
    ConsRet<TxScEnv, ReturnsResult, OriginalResultMarker<Original>>,
>;

impl ForwarderSyncCallModule {
    /// The state of an endpoint that starts in `env` with `gas_left` gas and the payment
    /// `call_value`.
    pub fn new(env: TxScEnv, gas_left: u64, call_value: CallValueWrapper) -> (r: Self)
        ensures
            r.env == env,
            r.gas_left == gas_left,
            r.call_value == call_value,
    {
        ForwarderSyncCallModule { env, gas_left, call_value }
    }

    /// A transaction of the contract with every part open.
    pub fn tx(&self) -> (r: TxBaseWithEnv<TxScEnv>)
        ensures
            r.env == self.env,
    {
        Tx::new_with_env(self.env)
    }

    /// The call that has the vault at `to` return `args`, with half of the gas that is left.
    pub fn echo_arguments_sync<'a>(&self, to: &'a ManagedAddress, args: Vec<Vec<u8>>) -> (r:
        VaultCall<'a, NotPayable, ExplicitGas<u64>, Vec<Vec<u8>>>)
        ensures
            r.env == self.env,
            r.to == to,
            r.gas.0 == self.gas_left / 2,
            r.data.function_name@ == ECHO_ARGUMENTS.spec_bytes(),
            r.data.arg_buffer == args,
    {
        let half_gas = self.gas_left / 2;

        self.tx().to(to).gas(half_gas).typed(VaultProxy).echo_arguments(args).returning(
            ReturnsResult,
        )
    }

    /// The two calls, sent one after the other, that each have the vault at `to` return
    /// `args`, each with a third of the gas that is left at the start.
    pub fn echo_arguments_sync_twice<'a>(&self, to: &'a ManagedAddress, args: Vec<Vec<u8>>) -> (r: (
        VaultCall<'a, NotPayable, ExplicitGas<u64>, Vec<Vec<u8>>>,
        VaultCall<'a, NotPayable, ExplicitGas<u64>, Vec<Vec<u8>>>,
    ))
        ensures
            r.0.env == self.env,
            r.0.to == to,
            r.0.gas.0 == self.gas_left / 3,
            r.0.data.function_name@ == ECHO_ARGUMENTS.spec_bytes(),
            buffers_view(r.0.data.arg_buffer@) == buffers_view(args@),
            r.1.env == self.env,
            r.1.to == to,
            r.1.gas.0 == self.gas_left / 3,
            r.1.data.function_name@ == ECHO_ARGUMENTS.spec_bytes(),
            r.1.data.arg_buffer == args,
    {
        let one_third_gas = self.gas_left / 3;

        let first = self.tx().to(to).gas(one_third_gas).typed(VaultProxy).echo_arguments(
            crate::types::bytes::buffers_to_vec(args.as_slice()),
        ).returning(ReturnsResult);

        let second = self.tx().to(to).gas(one_third_gas).typed(VaultProxy).echo_arguments(
            args,
        ).returning(ReturnsResult);

        (first, second)
    }

    /// The call that hands the payment of the running call on to the vault at `to` and asks
    /// for what the vault took, with half of the gas that is left. The endpoint stops where
    /// the call brought more than one token transfer.
    pub fn forward_sync_accept_funds<'a>(&self, to: &'a ManagedAddress) -> (r: Result<
        VaultCall<'a, MoaOrDcdtTokenPayment, ExplicitGas<u64>, (BigUint, MultiDcdtPayment)>,
        CallValueError,
    >)
        ensures
            r is Ok <==> self.call_value.spec_dcdt_transfers().len() <= 1,
            r matches Err(e) ==> e == CallValueError::IncorrectNumDcdtTransfers,
            r matches Ok(tx) ==> {
                &&& tx.env == self.env
                &&& tx.to == to
                &&& tx.gas.0 == self.gas_left / 2
                &&& tx.payment@ == self.call_value.spec_moa_or_single_dcdt()
                &&& tx.data.function_name@ == ACCEPT_FUNDS_ECHO_PAYMENT.spec_bytes()
                &&& tx.data@.arg_buffer == Seq::<Seq<u8>>::empty()
            },
    {
        let payment = match self.call_value.moa_or_single_dcdt() {
            Ok(payment) => payment,
            Err(e) => {
                return Err(e);
            },
        };
        let half_gas = self.gas_left / 2;

        Ok(
            self.tx().to(to).gas(half_gas).typed(VaultProxy).accept_funds_echo_payment().payment(
                payment,
            ).returning(ReturnsResult),
        )
    }

    /// The call that sends the MOA of the running call to the vault at `to` and asks for the
    /// MOA that comes back, with half of the gas that is left.
    pub fn forward_sync_accept_funds_rh_moa<'a>(&self, to: &'a ManagedAddress) -> (r: Tx<
        TxScEnv,
        (),
        &'a ManagedAddress,
        Moa<BigUint>,
        ExplicitGas<u64>,
        FunctionCall,
        ConsRet<TxScEnv, ReturnsBackTransfersMOA, OriginalResultMarker<()>>,
    >)
        ensures
            r.env == self.env,
            r.to == to,
            r.gas.0 == self.gas_left / 2,
            r.payment.0@ == self.call_value.spec_moa_value(),
            r.data.function_name@ == RETRIEVE_FUNDS_MOA_OR_SINGLE_DCDT.spec_bytes(),
            r.data@.arg_buffer == Seq::<Seq<u8>>::empty(),
    {
        let payment = self.call_value.moa_value().duplicate();
        let half_gas = self.gas_left / 2;

        self.tx().to(to).gas(half_gas).typed(VaultProxy).retrieve_funds_moa_or_single_dcdt().moa(
            payment,
        ).returning(ReturnsBackTransfersMOA)
    }

    /// The call that sends the one token transfer of the running call to the vault at `to`
    /// and asks for the one token payment that comes back, with half of the gas that is
    /// left. The endpoint stops unless the call brought exactly one token transfer.
    pub fn forward_sync_accept_funds_rh_single_dcdt<'a>(&self, to: &'a ManagedAddress) -> (r:
        Result<
        Tx<
            TxScEnv,
            (),
            &'a ManagedAddress,
            DcdtTokenPayment,
            ExplicitGas<u64>,
            FunctionCall,
            ConsRet<TxScEnv, ReturnsBackTransfersSingleDCDT, OriginalResultMarker<()>>,
        >,
        CallValueError,
    >)
        ensures
            r is Ok <==> self.call_value.spec_dcdt_transfers().len() == 1,
            r matches Err(e) ==> e == CallValueError::IncorrectNumDcdtTransfers,
            r matches Ok(tx) ==> {
                &&& tx.env == self.env
                &&& tx.to == to
                &&& tx.gas.0 == self.gas_left / 2
                &&& tx.payment@ == self.call_value.spec_dcdt_transfers()[0]
                &&& tx.data.function_name@ == RETRIEVE_FUNDS_MOA_OR_SINGLE_DCDT.spec_bytes()
                &&& tx.data@.arg_buffer == Seq::<Seq<u8>>::empty()
            },
    {
        let payment = match self.call_value.single_dcdt() {
            Ok(payment) => payment,
            Err(e) => {
                return Err(e);
            },
        };
        let half_gas = self.gas_left / 2;

        Ok(
            self.tx().to(to).gas(half_gas).typed(
                VaultProxy,
            ).retrieve_funds_moa_or_single_dcdt().payment(payment).returning(
                ReturnsBackTransfersSingleDCDT,
            ),
        )
    }

    /// The call that sends all token transfers of the running call to the vault at `to` and
    /// asks for the token payments that come back, with half of the gas that is left.
    pub fn forward_sync_accept_funds_rh_multi_dcdt<'a>(&self, to: &'a ManagedAddress) -> (r: Tx<
        TxScEnv,
        (),
        &'a ManagedAddress,
        MultiDcdtPayment,
        ExplicitGas<u64>,
        FunctionCall,
        ConsRet<TxScEnv, ReturnsBackTransfersMultiDCDT, OriginalResultMarker<()>>,
    >)
        ensures
            r.env == self.env,
            r.to == to,
            r.gas.0 == self.gas_left / 2,
            payments_view(r.payment@) == self.call_value.spec_dcdt_transfers(),
            r.data.function_name@ == RETRIEVE_FUNDS_MULTI_DCDT.spec_bytes(),
            r.data@.arg_buffer == Seq::<Seq<u8>>::empty(),
    {
        let payment = duplicate_payments(self.call_value.all_dcdt_transfers());
        let half_gas = self.gas_left / 2;

        self.tx().to(to).gas(half_gas).typed(VaultProxy).retrieve_funds_multi_dcdt().payment(
            payment,
        ).returning(ReturnsBackTransfersMultiDCDT)
    }

    /// The call that hands the payment of the running call, less the fees at the share
    /// `percentage_fees`, on to the vault at `to`. The endpoint stops where the call brought
    /// more than one token transfer or a token that is not fungible, and where the fees come
    /// to more than the payment.
    pub fn forward_sync_accept_funds_with_fees<'a>(
        &self,
        to: &'a ManagedAddress,
        percentage_fees: &BigUint,
    ) -> (r: Result<VaultCall<'a, MoaOrDcdtTokenPayment, (), ()>, ForwarderError>)
        ensures
            r is Ok <==> {
                &&& self.call_value.spec_dcdt_transfers().len() <= 1
                &&& self.call_value.spec_moa_or_single_dcdt().token_nonce == 0
                &&& fees_on(self.call_value.spec_moa_or_single_dcdt().amount, percentage_fees@)
                    <= self.call_value.spec_moa_or_single_dcdt().amount
            },
            r matches Err(e) ==> e == (if self.call_value.spec_dcdt_transfers().len() > 1 {
                ForwarderError::CallValue(CallValueError::IncorrectNumDcdtTransfers)
            } else if self.call_value.spec_moa_or_single_dcdt().token_nonce != 0 {
                ForwarderError::CallValue(CallValueError::FungibleTokenExpected)
            } else {
                ForwarderError::FeesExceedPayment
            }),
            r matches Ok(tx) ==> {
                &&& tx.env == self.env
                &&& tx.to == to
                &&& tx.payment@.token_identifier
                    == self.call_value.spec_moa_or_single_dcdt().token_identifier
                &&& tx.payment@.token_nonce == 0
                &&& tx.payment@.amount == self.call_value.spec_moa_or_single_dcdt().amount
                    - fees_on(
                    self.call_value.spec_moa_or_single_dcdt().amount,
                    percentage_fees@,
                )
                &&& tx.data.function_name@ == ACCEPT_FUNDS.spec_bytes()
                &&& tx.data@.arg_buffer == Seq::<Seq<u8>>::empty()
            },
    {
        let (token_id, payment) = match self.call_value.moa_or_single_fungible_dcdt() {
            Ok(pair) => pair,
            Err(e) => {
                return Err(ForwarderError::CallValue(e));
            },
        };
        let (_fees, amount_to_send) = match split_fees(&payment, percentage_fees) {
            Some(pair) => pair,
            None => {
                return Err(ForwarderError::FeesExceedPayment);
            },
        };

        Ok(
            self.tx().to(to).typed(VaultProxy).accept_funds().payment(
                MoaOrDcdtTokenPayment::new(token_id, 0u64, amount_to_send),
            ).returning(ReturnsResult),
        )
    }

    /// The two calls, sent one after the other, of which the first hands the payment of the
    /// running call on to the vault at `to` and the second asks the vault how often funds
    /// were taken. The endpoint stops where the call brought more than one token transfer.
    pub fn forward_sync_accept_funds_then_read<'a>(&self, to: &'a ManagedAddress) -> (r: Result<
        (
            Tx<
                TxScEnv,
                (),
                &'a ManagedAddress,
                MoaOrDcdtTokenPayment,
                (),
                FunctionCall,
                OriginalResultMarker<()>,
            >,
            VaultCall<'a, NotPayable, (), usize>,
        ),
        CallValueError,
    >)
        ensures
            r is Ok <==> self.call_value.spec_dcdt_transfers().len() <= 1,
            r matches Err(e) ==> e == CallValueError::IncorrectNumDcdtTransfers,
            r matches Ok(calls) ==> {
                &&& calls.0.env == self.env
                &&& calls.0.to == to
                &&& calls.0.payment@ == self.call_value.spec_moa_or_single_dcdt()
                &&& calls.0.data.function_name@ == ACCEPT_FUNDS.spec_bytes()
                &&& calls.0.data@.arg_buffer == Seq::<Seq<u8>>::empty()
                &&& calls.1.env == self.env
                &&& calls.1.to == to
                &&& calls.1.data.function_name@ == CALL_COUNTS.spec_bytes()
                &&& calls.1.data@.arg_buffer == seq![ACCEPT_FUNDS.spec_bytes()]
            },
    {
        let payment = match self.call_value.moa_or_single_dcdt() {
            Ok(payment) => payment,
            Err(e) => {
                return Err(e);
            },
        };
        let accept = self.tx().to(to).typed(VaultProxy).accept_funds().payment(payment);

        let read = self.tx().to(to).typed(VaultProxy).call_counts(
            ACCEPT_FUNDS.as_bytes_vec(),
        ).returning(ReturnsResult);

        Ok((accept, read))
    }

    /// The call that has the vault at `to` send `amount` of the instance `token_nonce` of
    /// `token` to the contract.
    pub fn forward_sync_retrieve_funds<'a>(
        &self,
        to: &'a ManagedAddress,
        token: MoaOrDcdtTokenIdentifier,
        token_nonce: u64,
        amount: BigUint,
    ) -> (r: Tx<
        TxScEnv,
        (),
        &'a ManagedAddress,
        NotPayable,
        (),
        FunctionCall,
        OriginalResultMarker<()>,
    >)
        ensures
            r.env == self.env,
            r.to == to,
            r.data.function_name@ == RETRIEVE_FUNDS.spec_bytes(),
            r.data@.arg_buffer == seq![
                token_argument(token@),
                minimal_be(token_nonce as nat),
                minimal_be(amount@),
            ],
    {
        self.tx().to(to).typed(VaultProxy).retrieve_funds(token, token_nonce, amount)
    }

    /// The call that hands all token transfers of the running call on to the vault at `to`
    /// and has the vault send `amount` of `token` back by a transfer that runs the
    /// contract's endpoint for taking funds.
    pub fn forward_sync_retrieve_funds_with_accept_func<'a>(
        &self,
        to: &'a ManagedAddress,
        token: Vec<u8>,
        amount: BigUint,
    ) -> (r: Tx<
        TxScEnv,
        (),
        &'a ManagedAddress,
        MultiDcdtPayment,
        (),
        FunctionCall,
        OriginalResultMarker<()>,
    >)
        ensures
            r.env == self.env,
            r.to == to,
            payments_view(r.payment@) == self.call_value.spec_dcdt_transfers(),
            r.data.function_name@ == RETRIEVE_FUNDS_WITH_TRANSFER_EXEC.spec_bytes(),
            r.data@.arg_buffer == seq![
                token@,
                minimal_be(amount@),
                ACCEPT_FUNDS_FUNC.spec_bytes(),
            ],
    {
        let payments = duplicate_payments(self.call_value.all_dcdt_transfers());

        let tx = self.tx().to(to).typed(VaultProxy).retrieve_funds_with_transfer_exec(
            token,
            amount,
            Some(ACCEPT_FUNDS_FUNC.as_bytes_vec()),
        ).payment(payments);
        assert(tx.data@.arg_buffer =~= seq![
            token@,
            minimal_be(amount@),
            ACCEPT_FUNDS_FUNC.spec_bytes(),
        ]);
        tx
    }

    /// Takes funds: the endpoint does nothing but be payable.
    pub fn accept_funds_func(&self) {
    }

    /// The call that pays the vault at `to` the token payments `token_payments`, each given
    /// as token identifier, nonce and amount, in their order.
    pub fn forward_sync_accept_funds_multi_transfer<'a>(
        &self,
        to: &'a ManagedAddress,
        token_payments: Vec<(Vec<u8>, u64, BigUint)>,
    ) -> (r: Tx<
        TxScEnv,
        (),
        &'a ManagedAddress,
        MultiDcdtPayment,
        (),
        FunctionCall,
        OriginalResultMarker<()>,
    >)
        ensures
            r.env == self.env,
            r.to == to,
            r.payment@.len() == token_payments@.len(),
            forall|i: int|
                0 <= i < token_payments@.len() ==> (#[trigger] r.payment@[i])@ == (
                DcdtTokenPaymentView {
                    token_identifier: token_payments@[i].0@,
                    token_nonce: token_payments@[i].1,
                    amount: token_payments@[i].2@,
                }),
            r.data.function_name@ == ACCEPT_FUNDS.spec_bytes(),
            r.data@.arg_buffer == Seq::<Seq<u8>>::empty(),
    {
        let mut all_token_payments: MultiDcdtPayment = Vec::new();

        let mut i: usize = 0;
        while i < token_payments.len()
            invariant
                i <= token_payments@.len(),
                all_token_payments@.len() == i,
                forall|j: int|
                    0 <= j < i ==> (#[trigger] all_token_payments@[j])@ == (DcdtTokenPaymentView {
                        token_identifier: token_payments@[j].0@,
                        token_nonce: token_payments@[j].1,
                        amount: token_payments@[j].2@,
                    }),
            decreases token_payments.len() - i,
        {
            let multi_arg = &token_payments[i];
            let payment = DcdtTokenPayment::new(
                multi_arg.0.clone(),
                multi_arg.1,
                multi_arg.2.duplicate(),
            );
            all_token_payments.push(payment);
            i += 1;
        }

        self.tx().to(to).typed(VaultProxy).accept_funds().payment(all_token_payments)
    }
}

} // verus!
