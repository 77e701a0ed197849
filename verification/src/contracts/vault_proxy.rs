//! Typed access to the endpoints of the vault contract.

use vstd::prelude::*;
use vstd::string::*;
use crate::sc::tx::function_call::FunctionCall;
use crate::sc::tx::tx::Tx;
use crate::sc::tx::tx_env::TxEnv;
use crate::sc::tx::tx_from::TxFrom;
use crate::sc::tx::tx_gas::TxGas;
use crate::sc::tx::tx_payment::NotPayable;
use crate::sc::tx::tx_proxy::TxProxyTrait;
use crate::sc::tx::tx_result_handler::OriginalResultMarker;
use crate::sc::tx::tx_to::TxTo;
use crate::sc::types::dcdt_token_payment::DcdtTokenPayment;
use crate::sc::types::moa_or_dcdt_token_identifier::MoaOrDcdtTokenIdentifier;
use crate::types::big_uint::BigUint;
use crate::types::top_encode::{minimal_be, top_encode_u64};

verus! {

/// The endpoint that returns its arguments.
pub const ECHO_ARGUMENTS: &'static str = "echo_arguments";

/// The endpoint that takes a payment.
pub const ACCEPT_FUNDS: &'static str = "accept_funds";

/// The endpoint that takes a payment and returns what it took.
pub const ACCEPT_FUNDS_ECHO_PAYMENT: &'static str = "accept_funds_echo_payment";

/// The endpoint that sends back the MOA or the one token payment it is called with.
pub const RETRIEVE_FUNDS_MOA_OR_SINGLE_DCDT: &'static str = "retrieve_funds_moa_or_single_dcdt";

/// The endpoint that sends back the token payments it is called with.
pub const RETRIEVE_FUNDS_MULTI_DCDT: &'static str = "retrieve_funds_multi_dcdt";

/// The endpoint that says how often an endpoint was called.
pub const CALL_COUNTS: &'static str = "call_counts";

/// The endpoint that sends funds to the caller.
pub const RETRIEVE_FUNDS: &'static str = "retrieve_funds";

/// The endpoint that sends funds to the caller by a transfer that runs an endpoint of the caller.
pub const RETRIEVE_FUNDS_WITH_TRANSFER_EXEC: &'static str = "retrieve_funds_with_transfer_exec";

/// How the base currency is named among the arguments of a call.
pub const MOA_REPRESENTATION: &'static str = "MOA";

/// The name of what `token` names, as it stands among the arguments of a call.
pub open spec fn token_argument(token: Option<Seq<u8>>) -> Seq<u8> {
    match token {
        None => MOA_REPRESENTATION.spec_bytes(),
        Some(token_identifier) => token_identifier,
    }
}

/// The proxy of the vault contract.
#[derive(Clone, Copy, Debug)]
pub struct VaultProxy;

/// The endpoints of the vault contract, around a transaction that has no payment and no
/// data yet. Each endpoint gives the transaction that calls it.
pub struct VaultProxyMethods<Env, From, To, Gas> where
    Env: TxEnv,
    From: TxFrom<Env>,
    To: TxTo<Env>,
    Gas: TxGas<Env>,
 {
    pub wrapped_tx: Tx<Env, From, To, (), Gas, (), ()>,
}

impl<Env, From, To, Gas> TxProxyTrait<Env, From, To, Gas> for VaultProxy where
    Env: TxEnv,
    From: TxFrom<Env>,
    To: TxTo<Env>,
    Gas: TxGas<Env>,
 {
    type TxProxyMethods = VaultProxyMethods<Env, From, To, Gas>;

    open spec fn spec_proxy_methods(
        self,
        tx: Tx<Env, From, To, (), Gas, (), ()>,
    ) -> Self::TxProxyMethods {
        VaultProxyMethods { wrapped_tx: tx }
    }

    fn proxy_methods(self, tx: Tx<Env, From, To, (), Gas, (), ()>) -> (r: Self::TxProxyMethods) {
        VaultProxyMethods { wrapped_tx: tx }
    }
}

impl<Env, From, To, Gas> VaultProxyMethods<Env, From, To, Gas> where
    Env: TxEnv,
    From: TxFrom<Env>,
    To: TxTo<Env>,
    Gas: TxGas<Env>,
 {
    /// The call that has the vault return `args` as they are. The endpoint takes no payment.
    pub fn echo_arguments(self, args: Vec<Vec<u8>>) -> (r: Tx<
        Env,
        From,
        To,
        NotPayable,
        Gas,
        FunctionCall,
        OriginalResultMarker<Vec<Vec<u8>>>,
    >)
        ensures
            r.env == self.wrapped_tx.env,
            r.from == self.wrapped_tx.from,
            r.to == self.wrapped_tx.to,
            r.gas == self.wrapped_tx.gas,
            r.data.function_name@ == ECHO_ARGUMENTS.spec_bytes(),
            r.data.arg_buffer == args,
    {
        self.wrapped_tx.payment(NotPayable).raw_call(ECHO_ARGUMENTS).arguments_raw(
            args,
        ).original_result()
    }

    /// The call that has the vault take the payment it comes with.
    pub fn accept_funds(self) -> (r: Tx<
        Env,
        From,
        To,
        (),
        Gas,
        FunctionCall,
        OriginalResultMarker<()>,
    >)
        ensures
            r.env == self.wrapped_tx.env,
            r.from == self.wrapped_tx.from,
            r.to == self.wrapped_tx.to,
            r.gas == self.wrapped_tx.gas,
            r.data.function_name@ == ACCEPT_FUNDS.spec_bytes(),
            r.data@.arg_buffer == Seq::<Seq<u8>>::empty(),
    {
        self.wrapped_tx.raw_call(ACCEPT_FUNDS).original_result()
    }

    /// The call that has the vault take the payment it comes with and return what it took:
    /// the MOA, then the token payments.
    pub fn accept_funds_echo_payment(self) -> (r: Tx<
        Env,
        From,
        To,
        (),
        Gas,
        FunctionCall,
        OriginalResultMarker<(BigUint, Vec<DcdtTokenPayment>)>,
    >)
        ensures
            r.env == self.wrapped_tx.env,
            r.from == self.wrapped_tx.from,
            r.to == self.wrapped_tx.to,
            r.gas == self.wrapped_tx.gas,
            r.data.function_name@ == ACCEPT_FUNDS_ECHO_PAYMENT.spec_bytes(),
            r.data@.arg_buffer == Seq::<Seq<u8>>::empty(),
    {
        self.wrapped_tx.raw_call(ACCEPT_FUNDS_ECHO_PAYMENT).original_result()
    }

    /// The call that has the vault send back the MOA or the one token payment it comes with.
    pub fn retrieve_funds_moa_or_single_dcdt(self) -> (r: Tx<
        Env,
        From,
        To,
        (),
        Gas,
        FunctionCall,
        OriginalResultMarker<()>,
    >)
        ensures
            r.env == self.wrapped_tx.env,
            r.from == self.wrapped_tx.from,
            r.to == self.wrapped_tx.to,
            r.gas == self.wrapped_tx.gas,
            r.data.function_name@ == RETRIEVE_FUNDS_MOA_OR_SINGLE_DCDT.spec_bytes(),
            r.data@.arg_buffer == Seq::<Seq<u8>>::empty(),
    {
        self.wrapped_tx.raw_call(RETRIEVE_FUNDS_MOA_OR_SINGLE_DCDT).original_result()
    }

    /// The call that has the vault send back the token payments it comes with.
    pub fn retrieve_funds_multi_dcdt(self) -> (r: Tx<
        Env,
        From,
        To,
        (),
        Gas,
        FunctionCall,
        OriginalResultMarker<()>,
    >)
        ensures
            r.env == self.wrapped_tx.env,
            r.from == self.wrapped_tx.from,
            r.to == self.wrapped_tx.to,
            r.gas == self.wrapped_tx.gas,
            r.data.function_name@ == RETRIEVE_FUNDS_MULTI_DCDT.spec_bytes(),
            r.data@.arg_buffer == Seq::<Seq<u8>>::empty(),
    {
        self.wrapped_tx.raw_call(RETRIEVE_FUNDS_MULTI_DCDT).original_result()
    }

    /// The call that asks the vault how often `endpoint` was called. The endpoint takes no
    /// payment.
    pub fn call_counts(self, endpoint: Vec<u8>) -> (r: Tx<
        Env,
        From,
        To,
        NotPayable,
        Gas,
        FunctionCall,
        OriginalResultMarker<usize>,
    >)
        ensures
            r.env == self.wrapped_tx.env,
            r.from == self.wrapped_tx.from,
            r.to == self.wrapped_tx.to,
            r.gas == self.wrapped_tx.gas,
            r.data.function_name@ == CALL_COUNTS.spec_bytes(),
            r.data@.arg_buffer == seq![endpoint@],
    {
        let call = FunctionCall::new(CALL_COUNTS.as_bytes_vec()).argument_raw(endpoint);
        assert(call@.arg_buffer =~= seq![endpoint@]);
        self.wrapped_tx.payment(NotPayable).raw_data(call).original_result()
    }

    /// The call that has the vault send `amount` of the instance `nonce` of `token` to the
    /// caller. The endpoint takes no payment.
    pub fn retrieve_funds(self, token: MoaOrDcdtTokenIdentifier, nonce: u64, amount: BigUint) -> (r:
        Tx<Env, From, To, NotPayable, Gas, FunctionCall, OriginalResultMarker<()>>)
        ensures
            r.env == self.wrapped_tx.env,
            r.from == self.wrapped_tx.from,
            r.to == self.wrapped_tx.to,
            r.gas == self.wrapped_tx.gas,
            r.data.function_name@ == RETRIEVE_FUNDS.spec_bytes(),
            r.data@.arg_buffer == seq![
                token_argument(token@),
                minimal_be(nonce as nat),
                minimal_be(amount@),
            ],
    {
        let token_name = match token {
            MoaOrDcdtTokenIdentifier::Moa => MOA_REPRESENTATION.as_bytes_vec(),
            MoaOrDcdtTokenIdentifier::Dcdt(token_identifier) => token_identifier,
        };
        let call = FunctionCall::new(RETRIEVE_FUNDS.as_bytes_vec()).argument_raw(
            token_name,
        ).argument_raw(top_encode_u64(nonce)).argument_raw(amount.to_bytes_be());
        assert(call@.arg_buffer =~= seq![
            token_argument(token@),
            minimal_be(nonce as nat),
            minimal_be(amount@),
        ]);
        self.wrapped_tx.payment(NotPayable).raw_data(call).original_result()
    }

    /// The call that has the vault send `amount` of `token` to the caller by a transfer that
    /// runs the caller's endpoint `opt_receive_func`, where one is given.
    pub fn retrieve_funds_with_transfer_exec(
        self,
        token: Vec<u8>,
        amount: BigUint,
        opt_receive_func: Option<Vec<u8>>,
    ) -> (r: Tx<Env, From, To, (), Gas, FunctionCall, OriginalResultMarker<()>>)
        ensures
            r.env == self.wrapped_tx.env,
            r.from == self.wrapped_tx.from,
            r.to == self.wrapped_tx.to,
            r.gas == self.wrapped_tx.gas,
            r.data.function_name@ == RETRIEVE_FUNDS_WITH_TRANSFER_EXEC.spec_bytes(),
            r.data@.arg_buffer == seq![token@, minimal_be(amount@)] + (match opt_receive_func {
                Some(receive_func) => seq![receive_func@],
                None => Seq::empty(),
            }),
    {
        let mut call = FunctionCall::new(
            RETRIEVE_FUNDS_WITH_TRANSFER_EXEC.as_bytes_vec(),
        ).argument_raw(token).argument_raw(amount.to_bytes_be());
        assert(call@.arg_buffer =~= seq![token@, minimal_be(amount@)]);
        match opt_receive_func {
            Some(receive_func) => {
                call = call.argument_raw(receive_func);
                assert(call@.arg_buffer =~= seq![token@, minimal_be(amount@)] + seq![
                    receive_func@,
                ]);
            },
            None => {
                assert(call@.arg_buffer =~= seq![token@, minimal_be(amount@)] + Seq::<
                    Seq<u8>,
                >::empty());
            },
        }
        self.wrapped_tx.raw_data(call).original_result()
    }
}

} // verus!
