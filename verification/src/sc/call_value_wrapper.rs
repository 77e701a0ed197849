//! What a contract call brought along as payment.

use vstd::prelude::*;
use crate::sc::err_msg::{FUNGIBLE_TOKEN_EXPECTED_ERR_MSG, INCORRECT_NUM_DCDT_TRANSFERS};
use crate::sc::types::{ManagedVec, TokenIdentifier};
use crate::sc::types::dcdt_token_payment::{
    duplicate_payments, payments_view, DcdtTokenPayment, DcdtTokenPaymentView,
};
use crate::sc::types::managed_decimal::{ManagedDecimal, MOA_DECIMALS};
use crate::sc::types::moa_or_dcdt_token_identifier::MoaOrDcdtTokenIdentifier;
use crate::sc::types::moa_or_dcdt_token_payment::{MoaOrDcdtTokenPayment, MoaOrDcdtTokenPaymentView};
use crate::sc::types::moa_or_multi_dcdt_payment::{MoaOrMultiDcdtPayment, MoaOrMultiDcdtPaymentView};
use crate::types::big_uint::BigUint;

verus! {

/// Why a call is turned down for the payment it brought.
#[derive(Clone, Copy, Debug, PartialEq, Eq, Structural)]
pub enum CallValueError {
    /// The call brought another number of token transfers than the endpoint takes.
    IncorrectNumDcdtTransfers,
    /// The call brought a non-fungible or semi-fungible token where a fungible one is taken.
    FungibleTokenExpected,
}

impl CallValueError {
    /// The message with which the call is turned down.
    pub fn message(&self) -> (r: &'static str)
        ensures
            r@ == match self {
                CallValueError::IncorrectNumDcdtTransfers => INCORRECT_NUM_DCDT_TRANSFERS@,
                CallValueError::FungibleTokenExpected => FUNGIBLE_TOKEN_EXPECTED_ERR_MSG@,
            },
    {
        match self {
            CallValueError::IncorrectNumDcdtTransfers => INCORRECT_NUM_DCDT_TRANSFERS,
            CallValueError::FungibleTokenExpected => FUNGIBLE_TOKEN_EXPECTED_ERR_MSG,
        }
    }
}

/// Turns a list into an array of `N` items through `TryFrom<Vec<T>>` of std: the array
/// holds the items of the list in order where the list has exactly `N` of them, and the
/// list comes back unchanged where it has not.
#[verifier::external_body]
fn vec_into_array<T, const N: usize>(list: Vec<T>) -> (r: Result<[T; N], Vec<T>>)
    ensures
        list@.len() == N ==> r is Ok && r->Ok_0@ == list@,
        list@.len() != N ==> r is Err && r->Err_0 == list,
{
    <[T; N]>::try_from(list)
}

/// The payment that came with a contract call: an amount of the base currency, and the
/// DCDT token transfers in their order.
#[derive(Clone, Debug)]
pub struct CallValueWrapper {
    moa_value: BigUint,
    dcdt_transfers: ManagedVec<DcdtTokenPayment>,
}

impl CallValueWrapper {
    /// The amount of MOA that the call brought.
    pub closed spec fn spec_moa_value(&self) -> nat {
        self.moa_value@
    }

    /// The token transfers that the call brought, in order.
    pub closed spec fn spec_dcdt_transfers(&self) -> Seq<DcdtTokenPaymentView> {
        payments_view(self.dcdt_transfers@)
    }

    /// The call value of a call that brought `moa_value` MOA and the token transfers
    /// `dcdt_transfers`.
    pub fn new(moa_value: BigUint, dcdt_transfers: ManagedVec<DcdtTokenPayment>) -> (r: Self)
        ensures
            r.spec_moa_value() == moa_value@,
            r.spec_dcdt_transfers() == payments_view(dcdt_transfers@),
    {
        CallValueWrapper { moa_value, dcdt_transfers }
    }

    /// The MOA that the call brought.
    pub fn moa_value(&self) -> (r: &BigUint)
        ensures
            r@ == self.spec_moa_value(),
    {
        &self.moa_value
    }

    /// The MOA that the call brought, as an amount with the decimals of MOA.
    pub fn moa_decimal(&self) -> (r: ManagedDecimal)
        ensures
            r.data@ == self.spec_moa_value(),
            r.num_decimals == MOA_DECIMALS,
    {
        ManagedDecimal::from_raw_units(self.moa_value.duplicate(), MOA_DECIMALS)
    }

    /// All token transfers that the call brought, in their order.
    pub fn all_dcdt_transfers(&self) -> (r: &ManagedVec<DcdtTokenPayment>)
        ensures
            payments_view(r@) == self.spec_dcdt_transfers(),
    {
        &self.dcdt_transfers
    }

    /// The token transfers as an array of `N` payments. The call is turned down unless it
    /// brought exactly `N` token transfers.
    pub fn multi_dcdt<const N: usize>(&self) -> (r: Result<[DcdtTokenPayment; N], CallValueError>)
        ensures
            r is Ok <==> self.spec_dcdt_transfers().len() == N,
            r matches Ok(payments) ==> payments_view(payments@) == self.spec_dcdt_transfers(),
            r matches Err(e) ==> e == CallValueError::IncorrectNumDcdtTransfers,
    {
        match vec_into_array::<DcdtTokenPayment, N>(duplicate_payments(&self.dcdt_transfers)) {
            Ok(payments) => Ok(payments),
            Err(_) => Err(CallValueError::IncorrectNumDcdtTransfers),
        }
    }

    /// The one token transfer, fungible or not. The call is turned down unless it brought
    /// exactly one.
    pub fn single_dcdt(&self) -> (r: Result<DcdtTokenPayment, CallValueError>)
        ensures
            r is Ok <==> self.spec_dcdt_transfers().len() == 1,
            r matches Ok(payment) ==> payment@ == self.spec_dcdt_transfers()[0],
            r matches Err(e) ==> e == CallValueError::IncorrectNumDcdtTransfers,
    {
        if self.dcdt_transfers.len() == 1 {
            Ok(self.dcdt_transfers[0].duplicate())
        } else {
            Err(CallValueError::IncorrectNumDcdtTransfers)
        }
    }

    /// The one transfer of a fungible token, as its token identifier and amount. The call is
    /// turned down unless it brought exactly one token transfer, and that of a fungible
    /// token.
    pub fn single_fungible_dcdt(&self) -> (r: Result<(TokenIdentifier, BigUint), CallValueError>)
        ensures
            r is Ok <==> self.spec_dcdt_transfers().len() == 1
                && self.spec_dcdt_transfers()[0].token_nonce == 0,
            r matches Ok(pair) ==> pair.0@ == self.spec_dcdt_transfers()[0].token_identifier
                && pair.1@ == self.spec_dcdt_transfers()[0].amount,
            r matches Err(e) ==> e == (if self.spec_dcdt_transfers().len() != 1 {
                CallValueError::IncorrectNumDcdtTransfers
            } else {
                CallValueError::FungibleTokenExpected
            }),
    {
        let payment = match self.single_dcdt() {
            Ok(payment) => payment,
            Err(e) => {
                return Err(e);
            },
        };
        if payment.token_nonce != 0 {
            return Err(CallValueError::FungibleTokenExpected);
        }
        Ok((payment.token_identifier, payment.amount))
    }

    /// What the call paid, where it may pay MOA or one token: with no token transfer the
    /// MOA it brought, which may be zero, and with one token transfer that transfer. The
    /// call is turned down where it brought more than one.
    pub fn moa_or_single_dcdt(&self) -> (r: Result<MoaOrDcdtTokenPayment, CallValueError>)
        ensures
            r is Ok <==> self.spec_dcdt_transfers().len() <= 1,
            r matches Ok(payment) ==> payment@ == self.spec_moa_or_single_dcdt(),
            r matches Err(e) ==> e == CallValueError::IncorrectNumDcdtTransfers,
    {
        let count = self.dcdt_transfers.len();
        if count == 0 {
            Ok(
                MoaOrDcdtTokenPayment {
                    token_identifier: MoaOrDcdtTokenIdentifier::moa(),
                    token_nonce: 0,
                    amount: self.moa_value.duplicate(),
                },
            )
        } else if count == 1 {
            let payment = self.dcdt_transfers[0].duplicate();
            Ok(
                MoaOrDcdtTokenPayment {
                    token_identifier: MoaOrDcdtTokenIdentifier::dcdt(payment.token_identifier),
                    token_nonce: payment.token_nonce,
                    amount: payment.amount,
                },
            )
        } else {
            Err(CallValueError::IncorrectNumDcdtTransfers)
        }
    }

    /// The payment of a call that brought at most one token transfer.
    pub open spec fn spec_moa_or_single_dcdt(&self) -> MoaOrDcdtTokenPaymentView {
        if self.spec_dcdt_transfers().len() == 0 {
            MoaOrDcdtTokenPaymentView {
                token_identifier: None,
                token_nonce: 0,
                amount: self.spec_moa_value(),
            }
        } else {
            MoaOrDcdtTokenPaymentView {
                token_identifier: Some(self.spec_dcdt_transfers()[0].token_identifier),
                token_nonce: self.spec_dcdt_transfers()[0].token_nonce,
                amount: self.spec_dcdt_transfers()[0].amount,
            }
        }
    }

    /// What the call paid, where it may pay MOA or one fungible token, as the name of what
    /// was paid and the amount. The call is turned down where it brought more than one
    /// token transfer, or a token that is not fungible.
    pub fn moa_or_single_fungible_dcdt(&self) -> (r: Result<
        (MoaOrDcdtTokenIdentifier, BigUint),
        CallValueError,
    >)
        ensures
            r is Ok <==> self.spec_dcdt_transfers().len() <= 1
                && self.spec_moa_or_single_dcdt().token_nonce == 0,
            r matches Ok(pair) ==> pair.0@ == self.spec_moa_or_single_dcdt().token_identifier
                && pair.1@ == self.spec_moa_or_single_dcdt().amount,
            r matches Err(e) ==> e == (if self.spec_dcdt_transfers().len() > 1 {
                CallValueError::IncorrectNumDcdtTransfers
            } else {
                CallValueError::FungibleTokenExpected
            }),
    {
        let payment = match self.moa_or_single_dcdt() {
            Ok(payment) => payment,
            Err(e) => {
                return Err(e);
            },
        };
        if payment.token_nonce != 0 {
            return Err(CallValueError::FungibleTokenExpected);
        }
        Ok((payment.token_identifier, payment.amount))
    }

    /// What the call paid, whatever it is: the MOA it brought, which may be zero, where it
    /// brought no token transfer, and all its token transfers where it brought any.
    pub fn any_payment(&self) -> (r: MoaOrMultiDcdtPayment)
        ensures
            r@ == (if self.spec_dcdt_transfers().len() == 0 {
                MoaOrMultiDcdtPaymentView::Moa(self.spec_moa_value())
            } else {
                MoaOrMultiDcdtPaymentView::MultiDcdt(self.spec_dcdt_transfers())
            }),
    {
        if self.dcdt_transfers.is_empty() {
            MoaOrMultiDcdtPayment::Moa(self.moa_value.duplicate())
        } else {
            MoaOrMultiDcdtPayment::MultiDcdt(duplicate_payments(&self.dcdt_transfers))
        }
    }
}

} // verus!
