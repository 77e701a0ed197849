//! The transaction builder.

use vstd::prelude::*;
use vstd::string::*;
use core::marker::PhantomData;
use crate::sc::tx::function_call::{call_data, FunctionCall};
use crate::sc::tx::tx_data::{
    Code, DeployCall, FromSource, TxCodeSource, TxCodeValue, TxData, TxDataFunctionCall,
    TxFromSourceValue, UpgradeCall,
};
use crate::sc::tx::tx_env::{TxEnv, TxEnvMockDeployAddress, TxEnvWithTxHash};
use crate::sc::tx::tx_from::{TxFrom, TxFromSpecified};
use crate::sc::tx::tx_gas::{ExplicitGas, TxGas, TxGasValue};
use crate::sc::tx::tx_payment::{
    normalized, Moa, MoaPayment, NormalizedTxView, TxMoaValue, TxPayment, TxPaymentMoaOnly,
};
use crate::sc::tx::tx_proxy::TxProxyTrait;
use crate::sc::tx::tx_result_handler::{
    OriginalResultMarker, RHList, RHListAppendNoRet, RHListAppendRet, RHListItem, TxResultHandler,
};
use crate::sc::tx::tx_to::{TxTo, TxToSpecified};
use crate::sc::types::{ManagedAddress, ManagedArgBuffer, ManagedBuffer, TokenIdentifier};
use crate::sc::types::code_metadata::CodeMetadata;
use crate::sc::types::dcdt_token_payment::{
    DcdtTokenPayment, DcdtTokenPaymentRefs, MultiDcdtPayment,
};
use crate::sc::types::h256::H256;
use crate::sc::types::moa_or_dcdt_token_identifier::MoaOrDcdtTokenIdentifier;
use crate::sc::types::moa_or_dcdt_token_payment::{MoaOrDcdtTokenPayment, MoaOrDcdtTokenPaymentRefs};
use crate::sc::types::moa_or_multi_dcdt_payment::MoaOrMultiDcdtPayment;
use crate::types::big_uint::BigUint;

verus! {

/// Universal representation of a blockchain transaction.
///
/// Seven type arguments say, each for one part of the transaction, whether the part was
/// set and in which form. A method that sets a part exists only on transactions in which
/// that part is still open.
///
/// A transaction does nothing by itself: it is a value that is handed on to be run or sent.
#[must_use]
pub struct Tx<Env, From, To, Payment, Gas, Data, RH> where
    Env: TxEnv,
    From: TxFrom<Env>,
    To: TxTo<Env>,
    Payment: TxPayment<Env>,
    Gas: TxGas<Env>,
    Data: TxData<Env>,
    RH: TxResultHandler<Env>,
 {
    pub env: Env,
    pub from: From,
    pub to: To,
    pub payment: Payment,
    pub gas: Gas,
    pub data: Data,
    pub result_handler: RH,
}

impl<Env, From, To, Payment, Gas, Data, RH> Tx<Env, From, To, Payment, Gas, Data, RH> where
    Env: TxEnv,
    From: TxFrom<Env>,
    To: TxTo<Env>,
    Payment: TxPayment<Env>,
    Gas: TxGas<Env>,
    Data: TxDataFunctionCall<Env>,
    RH: TxResultHandler<Env>,
 {
    /// The data field of the transaction as the ledger takes it: the function's name, then
    /// each argument behind an `@`, in lower-case hexadecimal.
    pub fn to_call_data_string(&self) -> (r: ManagedBuffer)
        ensures
            r@ == call_data(self.data.spec_function_call()),
    {
        self.data.to_call_data_string()
    }
}

/// A transaction of which only the environment is known.
pub type TxBaseWithEnv<Env> = Tx<Env, (), (), (), (), (), ()>;

impl<Env> TxBaseWithEnv<Env> where Env: TxEnv {
    /// A transaction in the environment `env`, with every other part open.
    #[inline]
    pub fn new_with_env(env: Env) -> (r: Self)
        ensures
            r.env == env,
    {
        Tx { env, from: (), to: (), payment: (), gas: (), data: (), result_handler: () }
    }
}

impl<Env, To, Payment, Gas, Data, RH> Tx<Env, (), To, Payment, Gas, Data, RH> where
    Env: TxEnv,
    To: TxTo<Env>,
    Payment: TxPayment<Env>,
    Gas: TxGas<Env>,
    Data: TxData<Env>,
    RH: TxResultHandler<Env>,
 {
    /// Specifies transaction sender.
    pub fn from<From>(self, from: From) -> (r: Tx<Env, From, To, Payment, Gas, Data, RH>) where
        From: TxFrom<Env>,

        ensures
            r.env == self.env,
            r.from == from,
            r.to == self.to,
            r.payment == self.payment,
            r.gas == self.gas,
            r.data == self.data,
            r.result_handler == self.result_handler,
    {
        Tx {
            env: self.env,
            from,
            to: self.to,
            payment: self.payment,
            gas: self.gas,
            data: self.data,
            result_handler: self.result_handler,
        }
    }
}

impl<Env, From, Payment, Gas, Data, RH> Tx<Env, From, (), Payment, Gas, Data, RH> where
    Env: TxEnv,
    From: TxFrom<Env>,
    Payment: TxPayment<Env>,
    Gas: TxGas<Env>,
    Data: TxData<Env>,
    RH: TxResultHandler<Env>,
 {
    /// Specifies the recipient of the transaction.
    ///
    /// Allows argument to also be `()`.
    pub fn to<To>(self, to: To) -> (r: Tx<Env, From, To, Payment, Gas, Data, RH>) where
        To: TxTo<Env>,

        ensures
            r.env == self.env,
            r.from == self.from,
            r.to == to,
            r.payment == self.payment,
            r.gas == self.gas,
            r.data == self.data,
            r.result_handler == self.result_handler,
    {
        Tx {
            env: self.env,
            from: self.from,
            to,
            payment: self.payment,
            gas: self.gas,
            data: self.data,
            result_handler: self.result_handler,
        }
    }
}

impl<Env, From, To, Gas, Data, RH> Tx<Env, From, To, (), Gas, Data, RH> where
    Env: TxEnv,
    From: TxFrom<Env>,
    To: TxTo<Env>,
    Gas: TxGas<Env>,
    Data: TxData<Env>,
    RH: TxResultHandler<Env>,
 {
    /// Adds any payment to a transaction, if no payment has been added before.
    pub fn payment<Payment>(self, payment: Payment) -> (r: Tx<
        Env,
        From,
        To,
        Payment,
        Gas,
        Data,
        RH,
    >) where Payment: TxPayment<Env>
        ensures
            r.env == self.env,
            r.from == self.from,
            r.to == self.to,
            r.payment == payment,
            r.gas == self.gas,
            r.data == self.data,
            r.result_handler == self.result_handler,
    {
        Tx {
            env: self.env,
            from: self.from,
            to: self.to,
            payment,
            gas: self.gas,
            data: self.data,
            result_handler: self.result_handler,
        }
    }

    /// Adds MOA value to a transaction.
    ///
    /// Accepts any type that can represent a MOA amount.
    pub fn moa<MoaValue>(self, moa_value: MoaValue) -> (r: Tx<
        Env,
        From,
        To,
        Moa<MoaValue>,
        Gas,
        Data,
        RH,
    >) where MoaValue: TxMoaValue<Env>
        ensures
            r.env == self.env,
            r.from == self.from,
            r.to == self.to,
            r.payment == Moa(moa_value),
            r.gas == self.gas,
            r.data == self.data,
            r.result_handler == self.result_handler,
    {
        self.payment(Moa(moa_value))
    }

    /// Adds MOA value to a transaction, from an owned amount. Same as `moa`.
    pub fn with_moa_transfer(self, moa_amount: BigUint) -> (r: Tx<
        Env,
        From,
        To,
        MoaPayment,
        Gas,
        Data,
        RH,
    >)
        ensures
            r.env == self.env,
            r.from == self.from,
            r.to == self.to,
            r.payment == Moa(moa_amount),
            r.gas == self.gas,
            r.data == self.data,
            r.result_handler == self.result_handler,
    {
        self.moa(moa_amount)
    }

    /// Adds the first single, owned DCDT token payment to a transaction.
    ///
    /// Since this is the first DCDT payment, a single payment tx is produced.
    ///
    /// Can subsequently be called again for multiple payments.
    pub fn dcdt(self, payment: DcdtTokenPayment) -> (r: Tx<
        Env,
        From,
        To,
        DcdtTokenPayment,
        Gas,
        Data,
        RH,
    >)
        ensures
            r.env == self.env,
            r.from == self.from,
            r.to == self.to,
            r.payment == payment,
            r.gas == self.gas,
            r.data == self.data,
            r.result_handler == self.result_handler,
    {
        self.payment(payment)
    }

    /// Sets a single token payment, with the token identifier and amount kept as references.
    ///
    /// This is handy when only one DCDT transfer is wanted and copies are to be avoided.
    pub fn single_dcdt<'a>(
        self,
        token_identifier: &'a TokenIdentifier,
        token_nonce: u64,
        amount: &'a BigUint,
    ) -> (r: Tx<Env, From, To, DcdtTokenPaymentRefs<'a>, Gas, Data, RH>)
        ensures
            r.env == self.env,
            r.from == self.from,
            r.to == self.to,
            r.payment == (DcdtTokenPaymentRefs { token_identifier, token_nonce, amount }),
            r.gas == self.gas,
            r.data == self.data,
            r.result_handler == self.result_handler,
    {
        self.payment(DcdtTokenPaymentRefs { token_identifier, token_nonce, amount })
    }

    /// Syntactic sugar for `self.payment(MoaOrDcdtTokenPaymentRefs::new(...)`. Takes
    /// references.
    pub fn moa_or_single_dcdt<'a>(
        self,
        token_identifier: &'a MoaOrDcdtTokenIdentifier,
        token_nonce: u64,
        amount: &'a BigUint,
    ) -> (r: Tx<Env, From, To, MoaOrDcdtTokenPaymentRefs<'a>, Gas, Data, RH>)
        ensures
            r.env == self.env,
            r.from == self.from,
            r.to == self.to,
            r.payment == (MoaOrDcdtTokenPaymentRefs { token_identifier, token_nonce, amount }),
            r.gas == self.gas,
            r.data == self.data,
            r.result_handler == self.result_handler,
    {
        self.payment(MoaOrDcdtTokenPaymentRefs::new(token_identifier, token_nonce, amount))
    }

    /// Sets a collection of DCDT transfers as the payment of the transaction.
    ///
    /// Can be formed from single DCDT payments, but the result will always be a collection.
    ///
    /// Takes an owned collection of DCDT payments.
    pub fn multi_dcdt(self, payments: MultiDcdtPayment) -> (r: Tx<
        Env,
        From,
        To,
        MultiDcdtPayment,
        Gas,
        Data,
        RH,
    >)
        ensures
            r.env == self.env,
            r.from == self.from,
            r.to == self.to,
            r.payment == payments,
            r.gas == self.gas,
            r.data == self.data,
            r.result_handler == self.result_handler,
    {
        self.payment(payments)
    }

    /// Adds the first DCDT token payment to a transaction, as a list of one.
    pub fn with_dcdt_transfer(self, payment: DcdtTokenPayment) -> (r: Tx<
        Env,
        From,
        To,
        MultiDcdtPayment,
        Gas,
        Data,
        RH,
    >)
        ensures
            r.env == self.env,
            r.from == self.from,
            r.to == self.to,
            r.payment@ == seq![payment],
            r.gas == self.gas,
            r.data == self.data,
            r.result_handler == self.result_handler,
    {
        let r = self.payment(Vec::new()).with_dcdt_transfer(payment);
        assert(r.payment@ =~= seq![payment]);
        r
    }

    /// Sets an owned collection of DCDT transfers as the payment of the transaction.
    pub fn with_multi_token_transfer(self, payments: MultiDcdtPayment) -> (r: Tx<
        Env,
        From,
        To,
        MultiDcdtPayment,
        Gas,
        Data,
        RH,
    >)
        ensures
            r.env == self.env,
            r.from == self.from,
            r.to == self.to,
            r.payment == payments,
            r.gas == self.gas,
            r.data == self.data,
            r.result_handler == self.result_handler,
    {
        self.payment(payments)
    }

    /// Sets a payment in MOA or in one DCDT token as the payment of the transaction.
    pub fn with_moa_or_single_dcdt_transfer(self, payment: MoaOrDcdtTokenPayment) -> (r: Tx<
        Env,
        From,
        To,
        MoaOrDcdtTokenPayment,
        Gas,
        Data,
        RH,
    >)
        ensures
            r.env == self.env,
            r.from == self.from,
            r.to == self.to,
            r.payment == payment,
            r.gas == self.gas,
            r.data == self.data,
            r.result_handler == self.result_handler,
    {
        self.payment(payment)
    }

    /// Sets a payment in MOA or in any number of DCDT tokens as the payment of the
    /// transaction.
    ///
    /// In most cases, `payment` should be used instead.
    pub fn moa_or_multi_dcdt(self, payment: MoaOrMultiDcdtPayment) -> (r: Tx<
        Env,
        From,
        To,
        MoaOrMultiDcdtPayment,
        Gas,
        Data,
        RH,
    >)
        ensures
            r.env == self.env,
            r.from == self.from,
            r.to == self.to,
            r.payment == payment,
            r.gas == self.gas,
            r.data == self.data,
            r.result_handler == self.result_handler,
    {
        self.payment(payment)
    }
}

impl<Env, From, To, Gas, Data, RH> Tx<Env, From, To, DcdtTokenPayment, Gas, Data, RH> where
    Env: TxEnv,
    From: TxFrom<Env>,
    To: TxTo<Env>,
    Gas: TxGas<Env>,
    Data: TxData<Env>,
    RH: TxResultHandler<Env>,
 {
    /// Adds the second DCDT token transfer to a contract call.
    ///
    /// Can be called multiple times on the same call.
    ///
    /// When the Tx already contains a single (owned) DCDT payment,
    /// adding the second one will convert it to a list.
    pub fn dcdt(self, payment: DcdtTokenPayment) -> (r: Tx<
        Env,
        From,
        To,
        MultiDcdtPayment,
        Gas,
        Data,
        RH,
    >)
        ensures
            r.env == self.env,
            r.from == self.from,
            r.to == self.to,
            r.payment@ == seq![self.payment, payment],
            r.gas == self.gas,
            r.data == self.data,
            r.result_handler == self.result_handler,
    {
        let mut payments: MultiDcdtPayment = Vec::new();
        payments.push(self.payment);
        payments.push(payment);
        assert(payments@ =~= seq![self.payment, payment]);
        Tx {
            env: self.env,
            from: self.from,
            to: self.to,
            payment: payments,
            gas: self.gas,
            data: self.data,
            result_handler: self.result_handler,
        }
    }
}

impl<Env, From, To, Gas, Data, RH> Tx<Env, From, To, MultiDcdtPayment, Gas, Data, RH> where
    Env: TxEnv,
    From: TxFrom<Env>,
    To: TxTo<Env>,
    Gas: TxGas<Env>,
    Data: TxData<Env>,
    RH: TxResultHandler<Env>,
 {
    /// Adds a single DCDT token transfer to a contract call.
    ///
    /// Can be called multiple times on the same call.
    pub fn dcdt(self, payment: DcdtTokenPayment) -> (r: Tx<
        Env,
        From,
        To,
        MultiDcdtPayment,
        Gas,
        Data,
        RH,
    >)
        ensures
            r.env == self.env,
            r.from == self.from,
            r.to == self.to,
            r.payment@ == self.payment@.push(payment),
            r.gas == self.gas,
            r.data == self.data,
            r.result_handler == self.result_handler,
    {
        let mut tx = self;
        tx.payment.push(payment);
        tx
    }

    /// When the Tx already contains an owned collection of DCDT payments,
    /// calling `multi_dcdt` is equivalent to `dcdt`, it just adds another payment to the
    /// list.
    ///
    /// Can be called multiple times.
    pub fn multi_dcdt(self, payment: DcdtTokenPayment) -> (r: Tx<
        Env,
        From,
        To,
        MultiDcdtPayment,
        Gas,
        Data,
        RH,
    >)
        ensures
            r.env == self.env,
            r.from == self.from,
            r.to == self.to,
            r.payment@ == self.payment@.push(payment),
            r.gas == self.gas,
            r.data == self.data,
            r.result_handler == self.result_handler,
    {
        self.dcdt(payment)
    }

    /// Adds another DCDT token payment to the list. Same as `dcdt`.
    pub fn with_dcdt_transfer(self, payment: DcdtTokenPayment) -> (r: Tx<
        Env,
        From,
        To,
        MultiDcdtPayment,
        Gas,
        Data,
        RH,
    >)
        ensures
            r.env == self.env,
            r.from == self.from,
            r.to == self.to,
            r.payment@ == self.payment@.push(payment),
            r.gas == self.gas,
            r.data == self.data,
            r.result_handler == self.result_handler,
    {
        self.multi_dcdt(payment)
    }
}

impl<Env, From, To, Payment, Data, RH> Tx<Env, From, To, Payment, (), Data, RH> where
    Env: TxEnv,
    From: TxFrom<Env>,
    To: TxTo<Env>,
    Payment: TxPayment<Env>,
    Data: TxData<Env>,
    RH: TxResultHandler<Env>,
 {
    /// Sets an explicit gas limit to the call.
    #[inline]
    pub fn gas<GasValue>(self, gas_value: GasValue) -> (r: Tx<
        Env,
        From,
        To,
        Payment,
        ExplicitGas<GasValue>,
        Data,
        RH,
    >) where GasValue: TxGasValue<Env>
        ensures
            r.env == self.env,
            r.from == self.from,
            r.to == self.to,
            r.payment == self.payment,
            r.gas == ExplicitGas(gas_value),
            r.data == self.data,
            r.result_handler == self.result_handler,
    {
        Tx {
            env: self.env,
            from: self.from,
            to: self.to,
            payment: self.payment,
            gas: ExplicitGas(gas_value),
            data: self.data,
            result_handler: self.result_handler,
        }
    }

    /// Sets an explicit gas limit to the call, given as a number.
    #[inline]
    pub fn with_gas_limit(self, gas_limit: u64) -> (r: Tx<
        Env,
        From,
        To,
        Payment,
        ExplicitGas<u64>,
        Data,
        RH,
    >)
        ensures
            r.env == self.env,
            r.from == self.from,
            r.to == self.to,
            r.payment == self.payment,
            r.gas == ExplicitGas(gas_limit),
            r.data == self.data,
            r.result_handler == self.result_handler,
    {
        Tx {
            env: self.env,
            from: self.from,
            to: self.to,
            payment: self.payment,
            gas: ExplicitGas(gas_limit),
            data: self.data,
            result_handler: self.result_handler,
        }
    }
}

impl<Env, From, To, Payment, Gas, RH> Tx<Env, From, To, Payment, Gas, (), RH> where
    Env: TxEnv,
    From: TxFrom<Env>,
    To: TxTo<Env>,
    Payment: TxPayment<Env>,
    Gas: TxGas<Env>,
    RH: TxResultHandler<Env>,
 {
    /// Sets the data field. Do not use directly.
    #[inline]
    pub fn raw_data<Data>(self, data: Data) -> (r: Tx<Env, From, To, Payment, Gas, Data, RH>) where
        Data: TxData<Env>,

        ensures
            r.env == self.env,
            r.from == self.from,
            r.to == self.to,
            r.payment == self.payment,
            r.gas == self.gas,
            r.data == data,
            r.result_handler == self.result_handler,
    {
        Tx {
            env: self.env,
            from: self.from,
            to: self.to,
            payment: self.payment,
            gas: self.gas,
            data,
            result_handler: self.result_handler,
        }
    }

    /// Starts a contract call, serialized by hand.
    ///
    /// Whenever possible, should use proxies instead, since manual serialization is not
    /// type-safe.
    #[inline]
    pub fn raw_call(self, function_name: &str) -> (r: Tx<
        Env,
        From,
        To,
        Payment,
        Gas,
        FunctionCall,
        RH,
    >)
        ensures
            r.env == self.env,
            r.from == self.from,
            r.to == self.to,
            r.payment == self.payment,
            r.gas == self.gas,
            r.data@.function_name == function_name.spec_bytes(),
            r.data@.arg_buffer == Seq::<Seq<u8>>::empty(),
            r.result_handler == self.result_handler,
    {
        self.raw_data(FunctionCall::new(function_name.as_bytes_vec()))
    }
}

impl<Env, From, To, Payment, Gas, RH> Tx<Env, From, To, Payment, Gas, FunctionCall, RH> where
    Env: TxEnv,
    From: TxFrom<Env>,
    To: TxTo<Env>,
    Payment: TxPayment<Env>,
    Gas: TxGas<Env>,
    RH: TxResultHandler<Env>,
 {
    /// Converts tx to a simple FunctionCall, to be used as argument or data in contracts.
    pub fn into_function_call(self) -> (r: FunctionCall)
        ensures
            r == self.data,
    {
        self.data
    }

    /// Adds serialized argument to function call.
    ///
    /// Whenever possible, use proxies instead.
    ///
    /// Does not serialize, does not enforce type safety.
    #[inline]
    pub fn arguments_raw(self, raw: ManagedArgBuffer) -> (r: Self)
        ensures
            r.env == self.env,
            r.from == self.from,
            r.to == self.to,
            r.payment == self.payment,
            r.gas == self.gas,
            r.data.function_name == self.data.function_name,
            r.data.arg_buffer == raw,
            r.result_handler == self.result_handler,
    {
        let mut tx = self;
        tx.data.arg_buffer = raw;
        tx
    }
}

impl<Env, From, To, Payment, Gas, RH> Tx<Env, From, To, Payment, Gas, FunctionCall, RH> where
    Env: TxEnv,
    From: TxFrom<Env>,
    To: TxToSpecified<Env>,
    Payment: TxPayment<Env>,
    Gas: TxGas<Env>,
    RH: TxResultHandler<Env>,
 {
    /// Produces the normalized function call, i.e. with builtin function calls for DCDT
    /// transfers.
    ///
    /// The resulting transaction can differ from the input in several ways:
    /// - the recipient is changed (some builtin functions are called with recipient =
    ///   sender),
    /// - the function call becomes a builtin function call.
    ///
    /// Normalization is done whenever a transaction is sent; this method is for those who
    /// need the normalized data themselves, e.g. for a multisig.
    pub fn normalize(self) -> (r: Tx<Env, From, ManagedAddress, MoaPayment, Gas, FunctionCall, RH>)
        ensures
            r.env == self.env,
            r.from == self.from,
            r.gas == self.gas,
            r.result_handler == self.result_handler,
            (NormalizedTxView { to: r.to, moa: r.payment.0@, function_call: r.data@ })
                == normalized(
                self.payment.spec_full_payment(),
                self.from.spec_address(&self.env),
                self.to.spec_address(),
                self.data@,
            ),
    {
        let take = |norm_to: &ManagedAddress, norm_moa: &BigUint, norm_fc: FunctionCall| -> (r: (
            ManagedAddress,
            BigUint,
            FunctionCall,
        ))
            ensures
                r.0 == *norm_to,
                r.1@ == norm_moa@,
                r.2 == norm_fc,
            { (*norm_to, norm_moa.duplicate(), norm_fc) };
        let (norm_to, norm_moa, norm_fc) = self.payment.with_normalized(
            &self.env,
            &self.from,
            self.to,
            self.data,
            take,
        );

        Tx {
            env: self.env,
            from: self.from,
            to: norm_to,
            payment: Moa(norm_moa),
            gas: self.gas,
            data: norm_fc,
            result_handler: self.result_handler,
        }
    }
}

impl<Env, From, Payment, Gas> Tx<Env, From, (), Payment, Gas, (), ()> where
    Env: TxEnv,
    From: TxFrom<Env>,
    Payment: TxPayment<Env>,
    Gas: TxGas<Env>,
 {
    /// Merges recipient, function call and result type of `call` into the current tx, which
    /// keeps its environment, sender, payment and gas.
    ///
    /// Used for function calls that a proxy hands out as whole transactions; these may
    /// have been built in another environment.
    pub fn legacy_proxy_call<Env2, To, O>(
        self,
        call: Tx<Env2, (), To, (), (), FunctionCall, OriginalResultMarker<O>>,
    ) -> (r: Tx<Env, From, To, Payment, Gas, FunctionCall, OriginalResultMarker<O>>) where
        Env2: TxEnv,
        To: TxTo<Env> + TxTo<Env2>,

        ensures
            r.env == self.env,
            r.from == self.from,
            r.to == call.to,
            r.payment == self.payment,
            r.gas == self.gas,
            r.data == call.data,
            r.result_handler == call.result_handler,
    {
        Tx {
            env: self.env,
            from: self.from,
            to: call.to,
            payment: self.payment,
            gas: self.gas,
            data: call.data,
            result_handler: call.result_handler,
        }
    }
}

impl<Env, From, To, Payment, Gas, Data> Tx<Env, From, To, Payment, Gas, Data, ()> where
    Env: TxEnv,
    From: TxFrom<Env>,
    To: TxTo<Env>,
    Payment: TxPayment<Env>,
    Gas: TxGas<Env>,
    Data: TxData<Env>,
 {
    /// Type marker for the type that the called contract or VM function returns.
    ///
    /// Only the compile-time type annotation is given.
    #[inline]
    pub fn original_result<OriginalResult>(self) -> (r: Tx<
        Env,
        From,
        To,
        Payment,
        Gas,
        Data,
        OriginalResultMarker<OriginalResult>,
    >)
        ensures
            r.env == self.env,
            r.from == self.from,
            r.to == self.to,
            r.payment == self.payment,
            r.gas == self.gas,
            r.data == self.data,
            r.result_handler == (OriginalResultMarker::<OriginalResult> { _phantom: PhantomData }),
    {
        Tx {
            env: self.env,
            from: self.from,
            to: self.to,
            payment: self.payment,
            gas: self.gas,
            data: self.data,
            result_handler: OriginalResultMarker::new(),
        }
    }
}

impl<Env, From, To, Gas> Tx<Env, From, To, (), Gas, (), ()> where
    Env: TxEnv,
    From: TxFrom<Env>,
    To: TxTo<Env>,
    Gas: TxGas<Env>,
 {
    /// Starts a proxy call, deploy, or upgrade.
    ///
    /// The proxy object will be given, the subsequent call will be from a proxy context,
    /// containing all the contract endpoint names.
    pub fn typed<Proxy>(self, proxy: Proxy) -> (r: Proxy::TxProxyMethods) where
        Proxy: TxProxyTrait<Env, From, To, Gas>,

        ensures
            r == proxy.spec_proxy_methods(self),
    {
        proxy.proxy_methods(self)
    }
}

impl<Env, From, To, Payment, Gas, Data, ResultList> Tx<
    Env,
    From,
    To,
    Payment,
    Gas,
    Data,
    ResultList,
> where
    Env: TxEnv,
    From: TxFrom<Env>,
    To: TxTo<Env>,
    Payment: TxPayment<Env>,
    Gas: TxGas<Env>,
    Data: TxData<Env>,
    ResultList: RHList<Env>,
 {
    /// Adds a result handler that doesn't return anything.
    #[inline]
    pub fn with_result<ResultHandler>(self, result_handler: ResultHandler) -> (r: Tx<
        Env,
        From,
        To,
        Payment,
        Gas,
        Data,
        ResultList::NoRetOutput,
    >) where
        ResultHandler: RHListItem<Env, ResultList::OriginalResult, Returns = ()>,
        ResultList: RHListAppendNoRet<Env, ResultHandler>,

        ensures
            r.env == self.env,
            r.from == self.from,
            r.to == self.to,
            r.payment == self.payment,
            r.gas == self.gas,
            r.data == self.data,
            r.result_handler == self.result_handler.spec_append_no_ret(result_handler),
    {
        Tx {
            env: self.env,
            from: self.from,
            to: self.to,
            payment: self.payment,
            gas: self.gas,
            data: self.data,
            result_handler: self.result_handler.append_no_ret(result_handler),
        }
    }

    /// Adds a result handler that can also return processed data.
    #[inline]
    pub fn returning<RH>(self, item: RH) -> (r: Tx<
        Env,
        From,
        To,
        Payment,
        Gas,
        Data,
        ResultList::RetOutput,
    >) where RH: RHListItem<Env, ResultList::OriginalResult>, ResultList: RHListAppendRet<Env, RH>
        ensures
            r.env == self.env,
            r.from == self.from,
            r.to == self.to,
            r.payment == self.payment,
            r.gas == self.gas,
            r.data == self.data,
            r.result_handler == self.result_handler.spec_append_ret(item),
    {
        Tx {
            env: self.env,
            from: self.from,
            to: self.to,
            payment: self.payment,
            gas: self.gas,
            data: self.data,
            result_handler: self.result_handler.append_ret(item),
        }
    }
}

impl<Env, From, To, Payment, Gas, RH> Tx<Env, From, To, Payment, Gas, (), RH> where
    Env: TxEnv,
    From: TxFrom<Env>,
    To: TxTo<Env>,
    Payment: TxPaymentMoaOnly<Env>,
    Gas: TxGas<Env>,
    RH: TxResultHandler<Env>,
 {
    /// Starts a contract deploy call, serialized by hand.
    ///
    /// Whenever possible, should use proxies instead, since manual serialization is not
    /// type-safe.
    pub fn raw_deploy(self) -> (r: Tx<Env, From, To, Payment, Gas, DeployCall<Env, ()>, RH>)
        ensures
            r.env == self.env,
            r.from == self.from,
            r.to == self.to,
            r.payment == self.payment,
            r.gas == self.gas,
            r.data.code_metadata.bits == 0,
            r.data.arg_buffer@.len() == 0,
            r.result_handler == self.result_handler,
    {
        self.raw_data(DeployCall::default())
    }

    /// Starts a contract deploy upgrade, serialized by hand.
    ///
    /// Whenever possible, should use proxies instead, since manual serialization is not
    /// type-safe.
    pub fn raw_upgrade(self) -> (r: Tx<Env, From, To, Payment, Gas, UpgradeCall<Env, ()>, RH>)
        ensures
            r.env == self.env,
            r.from == self.from,
            r.to == self.to,
            r.payment == self.payment,
            r.gas == self.gas,
            r.data.code_metadata.bits == 0,
            r.data.arg_buffer@.len() == 0,
            r.result_handler == self.result_handler,
    {
        self.raw_data(UpgradeCall::default())
    }
}

impl<Env, From, To, Payment, Gas, RH> Tx<
    Env,
    From,
    To,
    Payment,
    Gas,
    UpgradeCall<Env, ()>,
    RH,
> where
    Env: TxEnv,
    From: TxFrom<Env>,
    To: TxTo<Env>,
    Payment: TxPaymentMoaOnly<Env>,
    Gas: TxGas<Env>,
    RH: TxResultHandler<Env>,
 {
    /// Sets upgrade code source as explicit code bytes.
    pub fn code<CodeValue>(self, code: CodeValue) -> (r: Tx<
        Env,
        From,
        To,
        Payment,
        Gas,
        UpgradeCall<Env, Code<CodeValue>>,
        RH,
    >) where CodeValue: TxCodeValue<Env>
        ensures
            r.env == self.env,
            r.from == self.from,
            r.to == self.to,
            r.payment == self.payment,
            r.gas == self.gas,
            r.data.code_source == Code(code),
            r.data.code_metadata == self.data.code_metadata,
            r.data.arg_buffer == self.data.arg_buffer,
            r.result_handler == self.result_handler,
    {
        Tx {
            env: self.env,
            from: self.from,
            to: self.to,
            payment: self.payment,
            gas: self.gas,
            data: self.data.code_source(Code(code)),
            result_handler: self.result_handler,
        }
    }

    /// Sets upgrade code source as another deployed contract code.
    pub fn from_source<FromSourceValue>(self, source_address: FromSourceValue) -> (r: Tx<
        Env,
        From,
        To,
        Payment,
        Gas,
        UpgradeCall<Env, FromSource<FromSourceValue>>,
        RH,
    >) where FromSourceValue: TxFromSourceValue<Env>
        ensures
            r.env == self.env,
            r.from == self.from,
            r.to == self.to,
            r.payment == self.payment,
            r.gas == self.gas,
            r.data.code_source == FromSource(source_address),
            r.data.code_metadata == self.data.code_metadata,
            r.data.arg_buffer == self.data.arg_buffer,
            r.result_handler == self.result_handler,
    {
        Tx {
            env: self.env,
            from: self.from,
            to: self.to,
            payment: self.payment,
            gas: self.gas,
            data: self.data.code_source(FromSource(source_address)),
            result_handler: self.result_handler,
        }
    }
}

impl<Env, From, To, Payment, Gas, RH> Tx<Env, From, To, Payment, Gas, DeployCall<Env, ()>, RH> where
    Env: TxEnv,
    From: TxFrom<Env>,
    To: TxTo<Env>,
    Payment: TxPaymentMoaOnly<Env>,
    Gas: TxGas<Env>,
    RH: TxResultHandler<Env>,
 {
    /// Sets deploy code source as explicit code bytes.
    pub fn code<CodeValue>(self, code: CodeValue) -> (r: Tx<
        Env,
        From,
        To,
        Payment,
        Gas,
        DeployCall<Env, Code<CodeValue>>,
        RH,
    >) where CodeValue: TxCodeValue<Env>
        ensures
            r.env == self.env,
            r.from == self.from,
            r.to == self.to,
            r.payment == self.payment,
            r.gas == self.gas,
            r.data.code_source == Code(code),
            r.data.code_metadata == self.data.code_metadata,
            r.data.arg_buffer == self.data.arg_buffer,
            r.result_handler == self.result_handler,
    {
        Tx {
            env: self.env,
            from: self.from,
            to: self.to,
            payment: self.payment,
            gas: self.gas,
            data: self.data.code_source(Code(code)),
            result_handler: self.result_handler,
        }
    }

    /// Sets deploy code source as another deployed contract code.
    pub fn from_source<FromSourceValue>(self, source_address: FromSourceValue) -> (r: Tx<
        Env,
        From,
        To,
        Payment,
        Gas,
        DeployCall<Env, FromSource<FromSourceValue>>,
        RH,
    >) where FromSourceValue: TxFromSourceValue<Env>
        ensures
            r.env == self.env,
            r.from == self.from,
            r.to == self.to,
            r.payment == self.payment,
            r.gas == self.gas,
            r.data.code_source == FromSource(source_address),
            r.data.code_metadata == self.data.code_metadata,
            r.data.arg_buffer == self.data.arg_buffer,
            r.result_handler == self.result_handler,
    {
        Tx {
            env: self.env,
            from: self.from,
            to: self.to,
            payment: self.payment,
            gas: self.gas,
            data: self.data.code_source(FromSource(source_address)),
            result_handler: self.result_handler,
        }
    }
}

impl<Env, From, To, Payment, Gas, CodeSource, RH> Tx<
    Env,
    From,
    To,
    Payment,
    Gas,
    DeployCall<Env, CodeSource>,
    RH,
> where
    Env: TxEnv,
    From: TxFrom<Env>,
    To: TxTo<Env>,
    Payment: TxPaymentMoaOnly<Env>,
    Gas: TxGas<Env>,
    CodeSource: TxCodeSource<Env>,
    RH: TxResultHandler<Env>,
 {
    /// Sets code metadata to deploy.
    pub fn code_metadata(self, code_metadata: CodeMetadata) -> (r: Self)
        ensures
            r.env == self.env,
            r.from == self.from,
            r.to == self.to,
            r.payment == self.payment,
            r.gas == self.gas,
            r.data.code_source == self.data.code_source,
            r.data.code_metadata == code_metadata,
            r.data.arg_buffer == self.data.arg_buffer,
            r.result_handler == self.result_handler,
    {
        Tx {
            env: self.env,
            from: self.from,
            to: self.to,
            payment: self.payment,
            gas: self.gas,
            data: self.data.code_metadata(code_metadata),
            result_handler: self.result_handler,
        }
    }

    /// Adds serialized argument to a contract deploy.
    ///
    /// Whenever possible, use proxies instead.
    ///
    /// Does not serialize, does not enforce type safety.
    #[inline]
    pub fn arguments_raw(self, raw: ManagedArgBuffer) -> (r: Self)
        ensures
            r.env == self.env,
            r.from == self.from,
            r.to == self.to,
            r.payment == self.payment,
            r.gas == self.gas,
            r.data.code_source == self.data.code_source,
            r.data.code_metadata == self.data.code_metadata,
            r.data.arg_buffer == raw,
            r.result_handler == self.result_handler,
    {
        let mut tx = self;
        tx.data.arg_buffer = raw;
        tx
    }
}

impl<Env, From, To, Payment, Gas, CodeSource, RH> Tx<
    Env,
    From,
    To,
    Payment,
    Gas,
    DeployCall<Env, CodeSource>,
    RH,
> where
    Env: TxEnvMockDeployAddress,
    From: TxFromSpecified<Env>,
    To: TxTo<Env>,
    Payment: TxPaymentMoaOnly<Env>,
    Gas: TxGas<Env>,
    CodeSource: TxCodeSource<Env>,
    RH: TxResultHandler<Env>,
 {
    /// Sets the new mock address to be used for the newly deployed contract.
    ///
    /// Only allowed in tests.
    pub fn new_address(self, new_address: ManagedAddress) -> (r: Self)
        ensures
            r.env.spec_mock_deploy_addresses() == self.env.spec_mock_deploy_addresses().push(
                (self.from.spec_address(&self.env), new_address),
            ),
            r.env.spec_sender_address() == self.env.spec_sender_address(),
            r.env.spec_default_gas_value() == self.env.spec_default_gas_value(),
            r.from == self.from,
            r.to == self.to,
            r.payment == self.payment,
            r.gas == self.gas,
            r.data == self.data,
            r.result_handler == self.result_handler,
    {
        let mut tx = self;
        tx.env.mock_deploy_new_address(&tx.from, new_address);
        tx
    }
}

impl<Env, From, To, Payment, Gas, CodeSource, RH> Tx<
    Env,
    From,
    To,
    Payment,
    Gas,
    UpgradeCall<Env, CodeSource>,
    RH,
> where
    Env: TxEnv,
    From: TxFrom<Env>,
    To: TxTo<Env>,
    Payment: TxPaymentMoaOnly<Env>,
    Gas: TxGas<Env>,
    CodeSource: TxCodeSource<Env>,
    RH: TxResultHandler<Env>,
 {
    /// Sets code metadata to upgrade.
    pub fn code_metadata(self, code_metadata: CodeMetadata) -> (r: Self)
        ensures
            r.env == self.env,
            r.from == self.from,
            r.to == self.to,
            r.payment == self.payment,
            r.gas == self.gas,
            r.data.code_source == self.data.code_source,
            r.data.code_metadata == code_metadata,
            r.data.arg_buffer == self.data.arg_buffer,
            r.result_handler == self.result_handler,
    {
        Tx {
            env: self.env,
            from: self.from,
            to: self.to,
            payment: self.payment,
            gas: self.gas,
            data: self.data.code_metadata(code_metadata),
            result_handler: self.result_handler,
        }
    }

    /// Adds serialized argument to an upgrade call.
    ///
    /// Whenever possible, use proxies instead.
    ///
    /// Does not serialize, does not enforce type safety.
    #[inline]
    pub fn arguments_raw(self, raw: ManagedArgBuffer) -> (r: Self)
        ensures
            r.env == self.env,
            r.from == self.from,
            r.to == self.to,
            r.payment == self.payment,
            r.gas == self.gas,
            r.data.code_source == self.data.code_source,
            r.data.code_metadata == self.data.code_metadata,
            r.data.arg_buffer == raw,
            r.result_handler == self.result_handler,
    {
        let mut tx = self;
        tx.data.arg_buffer = raw;
        tx
    }
}

impl<Env, From, To, Payment, Gas, Data, RH> Tx<Env, From, To, Payment, Gas, Data, RH> where
    Env: TxEnvWithTxHash,
    From: TxFrom<Env>,
    To: TxTo<Env>,
    Payment: TxPayment<Env>,
    Gas: TxGas<Env>,
    Data: TxData<Env>,
    RH: TxResultHandler<Env>,
 {
    /// Sets the mock transaction hash to be used in a test.
    ///
    /// Only allowed in tests.
    pub fn tx_hash(self, tx_hash: H256) -> (r: Self)
        ensures
            r.env.spec_tx_hash() == Some(tx_hash),
            r.env.spec_sender_address() == self.env.spec_sender_address(),
            r.env.spec_default_gas_value() == self.env.spec_default_gas_value(),
            r.from == self.from,
            r.to == self.to,
            r.payment == self.payment,
            r.gas == self.gas,
            r.data == self.data,
            r.result_handler == self.result_handler,
    {
        let mut tx = self;
        tx.env.set_tx_hash(tx_hash);
        tx
    }
}

} // verus!
