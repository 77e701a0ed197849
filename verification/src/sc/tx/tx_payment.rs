//! What a transaction pays, and how a payment in tokens turns into a builtin function call.

use vstd::prelude::*;
use vstd::string::*;
use crate::chain_core::builtin_func_names::{
    DCDT_MULTI_TRANSFER_FUNC_NAME, DCDT_NFT_TRANSFER_FUNC_NAME, DCDT_TRANSFER_FUNC_NAME,
};
use crate::sc::tx::function_call::{FunctionCall, FunctionCallView};
use crate::sc::tx::tx_env::TxEnv;
use crate::sc::tx::tx_from::TxFrom;
use crate::sc::tx::tx_to::TxToSpecified;
use crate::sc::types::ManagedAddress;
use crate::sc::types::dcdt_token_payment::{
    payments_view, DcdtTokenPaymentView, MultiDcdtPayment,
};
use crate::sc::types::moa_or_multi_dcdt_payment::{
    MoaOrMultiDcdtPayment, MoaOrMultiDcdtPaymentView,
};
use crate::types::big_uint::BigUint;
use crate::types::bytes::{buffers_view, bytes_to_vec};
use crate::types::top_encode::{minimal_be, top_encode_u64};

verus! {

/// An amount of MOA as the payment of a transaction.
#[derive(Clone, Debug)]
pub struct Moa<MoaValue>(pub MoaValue);

/// An amount of MOA, owned, as the payment of a transaction.
pub type MoaPayment = Moa<BigUint>;

/// What a payment comes to: an amount of MOA, if MOA is paid, and the token payments in
/// order.
pub struct FullPaymentDataView {
    pub moa: Option<nat>,
    pub multi_dcdt: Seq<DcdtTokenPaymentView>,
}

/// A payment of any kind, spelled out: an amount of MOA, if MOA is paid, and the token
/// payments in order.
pub struct FullPaymentData {
    pub moa: Option<MoaPayment>,
    pub multi_dcdt: MultiDcdtPayment,
}

impl View for FullPaymentData {
    type V = FullPaymentDataView;

    open spec fn view(&self) -> FullPaymentDataView {
        FullPaymentDataView {
            moa: match self.moa {
                Some(payment) => Some(payment.0@),
                None => None,
            },
            multi_dcdt: payments_view(self.multi_dcdt@),
        }
    }
}

impl Default for FullPaymentData {
    /// No payment.
    fn default() -> (r: Self)
        ensures
            r@ == (FullPaymentDataView { moa: None, multi_dcdt: Seq::empty() }),
    {
        let r = FullPaymentData { moa: None, multi_dcdt: Vec::new() };
        assert(r@.multi_dcdt =~= Seq::<DcdtTokenPaymentView>::empty());
        r
    }
}

/// What a transfer moves: the token payments where there are any, else the MOA, which is
/// zero where none is paid.
pub open spec fn transfer_payment(full: FullPaymentDataView) -> MoaOrMultiDcdtPaymentView {
    if full.multi_dcdt.len() > 0 {
        MoaOrMultiDcdtPaymentView::MultiDcdt(full.multi_dcdt)
    } else {
        MoaOrMultiDcdtPaymentView::Moa(
            match full.moa {
                Some(amount) => amount,
                None => 0,
            },
        )
    }
}

/// What a transfer-and-execute asks of the virtual machine.
pub struct TransferExecuteView {
    pub to: ManagedAddress,
    pub payment: MoaOrMultiDcdtPaymentView,
    pub gas_limit: u64,
    pub function_call: FunctionCallView,
}

/// A transfer-and-execute for the virtual machine to carry out: move `payment` to `to`, and
/// run `function_call` there with at most `gas_limit` gas.
pub struct TransferExecute {
    pub to: ManagedAddress,
    pub payment: MoaOrMultiDcdtPayment,
    pub gas_limit: u64,
    pub function_call: FunctionCall,
}

impl View for TransferExecute {
    type V = TransferExecuteView;

    open spec fn view(&self) -> TransferExecuteView {
        TransferExecuteView {
            to: self.to,
            payment: self.payment@,
            gas_limit: self.gas_limit,
            function_call: self.function_call@,
        }
    }
}

/// A transaction as the ledger takes it: recipient, MOA value and function call.
pub struct NormalizedTxView {
    pub to: ManagedAddress,
    pub moa: nat,
    pub function_call: FunctionCallView,
}

/// What stands for a call inside the arguments of a transfer: its name and then its
/// arguments, or nothing where there is no call.
pub open spec fn inner_call_arguments(call: FunctionCallView) -> Seq<Seq<u8>> {
    if call.function_name.len() == 0 {
        Seq::empty()
    } else {
        seq![call.function_name] + call.arg_buffer
    }
}

/// The builtin function call that transfers the fungible token payment `payment` and then
/// runs `call`.
pub open spec fn fungible_transfer_call(
    payment: DcdtTokenPaymentView,
    call: FunctionCallView,
) -> FunctionCallView {
    FunctionCallView {
        function_name: DCDT_TRANSFER_FUNC_NAME.spec_bytes(),
        arg_buffer: seq![payment.token_identifier, minimal_be(payment.amount)]
            + inner_call_arguments(call),
    }
}

/// The builtin function call that transfers the token instance `payment` to `to` and then
/// runs `call` there.
pub open spec fn nft_transfer_call(
    payment: DcdtTokenPaymentView,
    to: ManagedAddress,
    call: FunctionCallView,
) -> FunctionCallView {
    FunctionCallView {
        function_name: DCDT_NFT_TRANSFER_FUNC_NAME.spec_bytes(),
        arg_buffer: seq![
            payment.token_identifier,
            minimal_be(payment.token_nonce as nat),
            minimal_be(payment.amount),
            to@,
        ] + inner_call_arguments(call),
    }
}

/// The arguments that name the token payments of a multi-transfer: identifier, nonce and
/// amount of each, in order.
pub open spec fn multi_transfer_arguments(payments: Seq<DcdtTokenPaymentView>) -> Seq<Seq<u8>>
    decreases payments.len(),
{
    if payments.len() == 0 {
        Seq::empty()
    } else {
        multi_transfer_arguments(payments.drop_last()) + seq![
            payments.last().token_identifier,
            minimal_be(payments.last().token_nonce as nat),
            minimal_be(payments.last().amount),
        ]
    }
}

/// The builtin function call that transfers the token payments `payments` to `to` and then
/// runs `call` there.
pub open spec fn multi_transfer_call(
    payments: Seq<DcdtTokenPaymentView>,
    to: ManagedAddress,
    call: FunctionCallView,
) -> FunctionCallView {
    FunctionCallView {
        function_name: DCDT_MULTI_TRANSFER_FUNC_NAME.spec_bytes(),
        arg_buffer: seq![to@, minimal_be(payments.len())] + multi_transfer_arguments(payments)
            + inner_call_arguments(call),
    }
}

/// The transaction that the ledger takes for a call of `call` at `to` by `from` that pays
/// `full`. Without token payments nothing changes. One fungible token payment turns the
/// call into a token transfer to the same recipient. One token instance, or several token
/// payments, turn it into a transfer that the sender addresses to itself, with the
/// recipient among the arguments. Token transfers carry no MOA.
pub open spec fn normalized(
    full: FullPaymentDataView,
    from: ManagedAddress,
    to: ManagedAddress,
    call: FunctionCallView,
) -> NormalizedTxView {
    if full.multi_dcdt.len() == 0 {
        NormalizedTxView {
            to,
            moa: match full.moa {
                Some(amount) => amount,
                None => 0,
            },
            function_call: call,
        }
    } else if full.multi_dcdt.len() == 1 {
        if full.multi_dcdt[0].token_nonce == 0 {
            NormalizedTxView {
                to,
                moa: 0,
                function_call: fungible_transfer_call(full.multi_dcdt[0], call),
            }
        } else {
            NormalizedTxView {
                to: from,
                moa: 0,
                function_call: nft_transfer_call(full.multi_dcdt[0], to, call),
            }
        }
    } else {
        NormalizedTxView {
            to: from,
            moa: 0,
            function_call: multi_transfer_call(full.multi_dcdt, to, call),
        }
    }
}

/// `f` can be called on every recipient, MOA value and function call that make up the
/// transaction `expected`.
pub open spec fn takes_normalized<F, R>(f: F, expected: NormalizedTxView) -> bool where
    F: FnOnce(&ManagedAddress, &BigUint, FunctionCall) -> R,
 {
    forall|to: &ManagedAddress, moa: &BigUint, call: FunctionCall|
        (NormalizedTxView { to: *to, moa: moa@, function_call: call@ }) == expected
            ==> #[trigger] f.requires((to, moa, call))
}

/// `r` is what `f` returns on a recipient, a MOA value and a function call that make up
/// the transaction `expected`.
pub open spec fn gives_for_normalized<F, R>(f: F, expected: NormalizedTxView, r: R) -> bool where
    F: FnOnce(&ManagedAddress, &BigUint, FunctionCall) -> R,
 {
    exists|to: ManagedAddress, moa: BigUint, call: FunctionCall|
        #![trigger f.ensures((&to, &moa, call), r)]
        f.ensures((&to, &moa, call), r) && (NormalizedTxView {
            to,
            moa: moa@,
            function_call: call@,
        }) == expected
}

/// Adds to `args` what stands for `call` inside the arguments of a transfer.
fn push_inner_call(args: &mut Vec<Vec<u8>>, call: FunctionCall)
    ensures
        buffers_view(final(args)@) == buffers_view(old(args)@) + inner_call_arguments(call@),
{
    if call.function_name.len() == 0 {
        assert(buffers_view(args@) =~= buffers_view(old(args)@) + Seq::<Seq<u8>>::empty());
    } else {
        let ghost before = args@;
        let mut rest = call.arg_buffer;
        let ghost rest_view = rest@;
        args.push(call.function_name);
        args.append(&mut rest);
        assert(args@ =~= before.push(call.function_name) + rest_view);
        assert(buffers_view(args@) =~= buffers_view(before) + (seq![call.function_name@]
            + buffers_view(rest_view)));
    }
}

/// The recipient, the MOA value and the function call of the transaction that the ledger
/// takes for a call of `call` at `to` by `from` that pays `full`.
pub fn normalize_payment(
    full: FullPaymentData,
    from: ManagedAddress,
    to: ManagedAddress,
    call: FunctionCall,
) -> (r: (ManagedAddress, BigUint, FunctionCall))
    ensures
        (NormalizedTxView { to: r.0, moa: r.1@, function_call: r.2@ }) == normalized(
            full@,
            from,
            to,
            call@,
        ),
{
    let count = full.multi_dcdt.len();
    if count == 0 {
        let moa = match full.moa {
            Some(payment) => payment.0,
            None => BigUint::zero(),
        };
        (to, moa, call)
    } else if count == 1 {
        let payment = &full.multi_dcdt[0];
        assert(payment@ == full@.multi_dcdt[0]);
        if payment.token_nonce == 0 {
            let mut args: Vec<Vec<u8>> = Vec::new();
            args.push(payment.token_identifier.clone());
            args.push(payment.amount.to_bytes_be());
            assert(buffers_view(args@) =~= seq![
                payment@.token_identifier,
                minimal_be(payment@.amount),
            ]);
            push_inner_call(&mut args, call);
            let function_call = FunctionCall {
                function_name: DCDT_TRANSFER_FUNC_NAME.as_bytes_vec(),
                arg_buffer: args,
            };
            (to, BigUint::zero(), function_call)
        } else {
            let mut args: Vec<Vec<u8>> = Vec::new();
            args.push(payment.token_identifier.clone());
            args.push(top_encode_u64(payment.token_nonce));
            args.push(payment.amount.to_bytes_be());
            args.push(bytes_to_vec(to.bytes.as_slice()));
            assert(buffers_view(args@) =~= seq![
                payment@.token_identifier,
                minimal_be(payment@.token_nonce as nat),
                minimal_be(payment@.amount),
                to@,
            ]);
            push_inner_call(&mut args, call);
            let function_call = FunctionCall {
                function_name: DCDT_NFT_TRANSFER_FUNC_NAME.as_bytes_vec(),
                arg_buffer: args,
            };
            (from, BigUint::zero(), function_call)
        }
    } else {
        let ghost payments = full@.multi_dcdt;
        let mut args: Vec<Vec<u8>> = Vec::new();
        args.push(bytes_to_vec(to.bytes.as_slice()));
        args.push(top_encode_usize(count));
        assert(buffers_view(args@) =~= seq![to@, minimal_be(payments.len())]
            + multi_transfer_arguments(payments.take(0)));
        let mut i: usize = 0;
        while i < count
            invariant
                i <= count,
                count == full.multi_dcdt@.len(),
                payments == full@.multi_dcdt,
                buffers_view(args@) == seq![to@, minimal_be(payments.len())]
                    + multi_transfer_arguments(payments.take(i as int)),
            decreases count - i,
        {
            let payment = &full.multi_dcdt[i];
            let ghost before = args@;
            args.push(payment.token_identifier.clone());
            args.push(top_encode_u64(payment.token_nonce));
            args.push(payment.amount.to_bytes_be());
            proof {
                let next = payments.take(i + 1);
                assert(next.drop_last() =~= payments.take(i as int));
                assert(next.last() == payment@);
                assert(buffers_view(args@) =~= buffers_view(before) + seq![
                    payment@.token_identifier,
                    minimal_be(payment@.token_nonce as nat),
                    minimal_be(payment@.amount),
                ]);
                assert(buffers_view(args@) =~= seq![to@, minimal_be(payments.len())]
                    + multi_transfer_arguments(next));
            }
            i += 1;
        }
        proof {
            assert(payments.take(i as int) =~= payments);
        }
        push_inner_call(&mut args, call);
        let function_call = FunctionCall {
            function_name: DCDT_MULTI_TRANSFER_FUNC_NAME.as_bytes_vec(),
            arg_buffer: args,
        };
        (from, BigUint::zero(), function_call)
    }
}

/// A count in the numeric wire encoding.
fn top_encode_usize(value: usize) -> (r: Vec<u8>)
    ensures
        r@ == minimal_be(value as nat),
{
    top_encode_u64(value as u64)
}

/// What a transfer of the payment `full` to `to` asks of the virtual machine.
pub fn transfer_execute_of(
    full: FullPaymentData,
    to: ManagedAddress,
    gas_limit: u64,
    call: FunctionCall,
) -> (r: TransferExecute)
    ensures
        r@ == (TransferExecuteView {
            to,
            payment: transfer_payment(full@),
            gas_limit,
            function_call: call@,
        }),
{
    let payment = if full.multi_dcdt.len() > 0 {
        MoaOrMultiDcdtPayment::MultiDcdt(full.multi_dcdt)
    } else {
        match full.moa {
            Some(moa) => MoaOrMultiDcdtPayment::Moa(moa.0),
            None => MoaOrMultiDcdtPayment::Moa(BigUint::zero()),
        }
    };
    TransferExecute { to, payment, gas_limit, function_call: call }
}

/// What can stand for the payment of a transaction; `()` where nothing is paid.
pub trait TxPayment<Env>: Sized where Env: TxEnv {
    /// Whether nothing is paid.
    spec fn spec_is_no_payment(&self) -> bool;

    /// What the payment comes to.
    spec fn spec_full_payment(&self) -> FullPaymentDataView;

    /// Whether nothing is paid.
    fn is_no_payment(&self, env: &Env) -> (r: bool)
        ensures
            r == self.spec_is_no_payment(),
    ;

    /// Says what the virtual machine is to do so that the payment goes to `to` and `fc` runs
    /// there with at most `gas_limit` gas.
    fn perform_transfer_execute(
        self,
        env: &Env,
        to: &ManagedAddress,
        gas_limit: u64,
        fc: FunctionCall,
    ) -> (r: TransferExecute)
        ensures
            r@ == (TransferExecuteView {
                to: *to,
                payment: transfer_payment(self.spec_full_payment()),
                gas_limit,
                function_call: fc@,
            }),
    ;

    /// Hands to `f` the recipient, the MOA value and the function call of the transaction
    /// that the ledger takes for a call of `fc` at `to` by `from` with this payment, and
    /// returns what `f` returns.
    fn with_normalized<From, To, F, R>(
        self,
        env: &Env,
        from: &From,
        to: To,
        fc: FunctionCall,
        f: F,
    ) -> (r: R) where
        From: TxFrom<Env>,
        To: TxToSpecified<Env>,
        F: FnOnce(&ManagedAddress, &BigUint, FunctionCall) -> R,

        requires
            takes_normalized(
                f,
                normalized(
                    self.spec_full_payment(),
                    from.spec_address(env),
                    to.spec_address(),
                    fc@,
                ),
            ),
        ensures
            gives_for_normalized(
                f,
                normalized(
                    self.spec_full_payment(),
                    from.spec_address(env),
                    to.spec_address(),
                    fc@,
                ),
                r,
            ),
    ;

    /// The payment spelled out.
    fn into_full_payment_data(self, env: &Env) -> (r: FullPaymentData)
        ensures
            r@ == self.spec_full_payment(),
    ;
}

/// A payment that can only be MOA.
pub trait TxPaymentMoaOnly<Env>: TxPayment<Env> where Env: TxEnv {
    /// The amount of MOA that is paid.
    spec fn spec_moa_value(&self) -> nat;

    /// The amount of MOA that is paid.
    fn into_moa_payment(self, env: &Env) -> (r: BigUint)
        ensures
            r@ == self.spec_moa_value(),
    ;
}

/// What can be given as an amount of MOA.
pub trait TxMoaValue<Env> where Env: TxEnv {
    /// The amount.
    spec fn spec_value(&self) -> nat;

    /// The amount, as a value of its own.
    fn into_value(self, env: &Env) -> (r: BigUint)
        ensures
            r@ == self.spec_value(),
    ;

    /// Whether the amount is zero.
    fn is_zero_value(&self, env: &Env) -> (r: bool)
        ensures
            r == (self.spec_value() == 0),
    ;
}

impl<Env> TxMoaValue<Env> for BigUint where Env: TxEnv {
    open spec fn spec_value(&self) -> nat {
        self@
    }

    fn into_value(self, env: &Env) -> (r: BigUint) {
        self
    }

    fn is_zero_value(&self, env: &Env) -> (r: bool) {
        self.is_zero()
    }
}

impl<Env> TxMoaValue<Env> for &BigUint where Env: TxEnv {
    open spec fn spec_value(&self) -> nat {
        self@
    }

    fn into_value(self, env: &Env) -> (r: BigUint) {
        self.duplicate()
    }

    fn is_zero_value(&self, env: &Env) -> (r: bool) {
        self.is_zero()
    }
}

impl<Env> TxMoaValue<Env> for u64 where Env: TxEnv {
    open spec fn spec_value(&self) -> nat {
        *self as nat
    }

    fn into_value(self, env: &Env) -> (r: BigUint) {
        BigUint::from_u64(self)
    }

    fn is_zero_value(&self, env: &Env) -> (r: bool) {
        *self == 0
    }
}

impl<Env> TxPayment<Env> for () where Env: TxEnv {
    open spec fn spec_is_no_payment(&self) -> bool {
        true
    }

    open spec fn spec_full_payment(&self) -> FullPaymentDataView {
        FullPaymentDataView { moa: None, multi_dcdt: Seq::empty() }
    }

    fn is_no_payment(&self, env: &Env) -> (r: bool) {
        true
    }

    fn perform_transfer_execute(
        self,
        env: &Env,
        to: &ManagedAddress,
        gas_limit: u64,
        fc: FunctionCall,
    ) -> (r: TransferExecute) {
        transfer_execute_of(FullPaymentData::default(), *to, gas_limit, fc)
    }

    fn with_normalized<From, To, F, R>(
        self,
        env: &Env,
        from: &From,
        to: To,
        fc: FunctionCall,
        f: F,
    ) -> (r: R) where
        From: TxFrom<Env>,
        To: TxToSpecified<Env>,
        F: FnOnce(&ManagedAddress, &BigUint, FunctionCall) -> R,
     {
        let to_addr = to.to_address(env);
        let zero = BigUint::zero();
        f(&to_addr, &zero, fc)
    }

    fn into_full_payment_data(self, env: &Env) -> (r: FullPaymentData) {
        FullPaymentData::default()
    }
}

impl<Env> TxPaymentMoaOnly<Env> for () where Env: TxEnv {
    open spec fn spec_moa_value(&self) -> nat {
        0
    }

    fn into_moa_payment(self, env: &Env) -> (r: BigUint) {
        BigUint::zero()
    }
}

/// Says that the called endpoint takes no payment.
#[derive(Clone, Copy, Debug)]
pub struct NotPayable;

impl<Env> TxPayment<Env> for NotPayable where Env: TxEnv {
    open spec fn spec_is_no_payment(&self) -> bool {
        true
    }

    open spec fn spec_full_payment(&self) -> FullPaymentDataView {
        FullPaymentDataView { moa: None, multi_dcdt: Seq::empty() }
    }

    fn is_no_payment(&self, env: &Env) -> (r: bool) {
        true
    }

    fn perform_transfer_execute(
        self,
        env: &Env,
        to: &ManagedAddress,
        gas_limit: u64,
        fc: FunctionCall,
    ) -> (r: TransferExecute) {
        transfer_execute_of(FullPaymentData::default(), *to, gas_limit, fc)
    }

    fn with_normalized<From, To, F, R>(
        self,
        env: &Env,
        from: &From,
        to: To,
        fc: FunctionCall,
        f: F,
    ) -> (r: R) where
        From: TxFrom<Env>,
        To: TxToSpecified<Env>,
        F: FnOnce(&ManagedAddress, &BigUint, FunctionCall) -> R,
     {
        let to_addr = to.to_address(env);
        let zero = BigUint::zero();
        f(&to_addr, &zero, fc)
    }

    fn into_full_payment_data(self, env: &Env) -> (r: FullPaymentData) {
        FullPaymentData::default()
    }
}

impl<Env> TxPaymentMoaOnly<Env> for NotPayable where Env: TxEnv {
    open spec fn spec_moa_value(&self) -> nat {
        0
    }

    fn into_moa_payment(self, env: &Env) -> (r: BigUint) {
        BigUint::zero()
    }
}

impl<Env, MoaValue> TxPayment<Env> for Moa<MoaValue> where Env: TxEnv, MoaValue: TxMoaValue<Env> {
    open spec fn spec_is_no_payment(&self) -> bool {
        self.0.spec_value() == 0
    }

    open spec fn spec_full_payment(&self) -> FullPaymentDataView {
        FullPaymentDataView { moa: Some(self.0.spec_value()), multi_dcdt: Seq::empty() }
    }

    fn is_no_payment(&self, env: &Env) -> (r: bool) {
        self.0.is_zero_value(env)
    }

    fn perform_transfer_execute(
        self,
        env: &Env,
        to: &ManagedAddress,
        gas_limit: u64,
        fc: FunctionCall,
    ) -> (r: TransferExecute) {
        transfer_execute_of(self.into_full_payment_data(env), *to, gas_limit, fc)
    }

    fn with_normalized<From, To, F, R>(
        self,
        env: &Env,
        from: &From,
        to: To,
        fc: FunctionCall,
        f: F,
    ) -> (r: R) where
        From: TxFrom<Env>,
        To: TxToSpecified<Env>,
        F: FnOnce(&ManagedAddress, &BigUint, FunctionCall) -> R,
     {
        let to_addr = to.to_address(env);
        let moa_value = self.0.into_value(env);
        f(&to_addr, &moa_value, fc)
    }

    fn into_full_payment_data(self, env: &Env) -> (r: FullPaymentData) {
        let r = FullPaymentData { moa: Some(Moa(self.0.into_value(env))), multi_dcdt: Vec::new() };
        assert(r@.multi_dcdt =~= Seq::<DcdtTokenPaymentView>::empty());
        r
    }
}

impl<Env, MoaValue> TxPaymentMoaOnly<Env> for Moa<MoaValue> where
    Env: TxEnv,
    MoaValue: TxMoaValue<Env>,
 {
    open spec fn spec_moa_value(&self) -> nat {
        self.0.spec_value()
    }

    fn into_moa_payment(self, env: &Env) -> (r: BigUint) {
        self.0.into_value(env)
    }
}

} // verus!
