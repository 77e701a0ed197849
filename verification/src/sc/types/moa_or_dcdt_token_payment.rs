//! A payment in the base currency or in one DCDT token.

use vstd::prelude::*;
use vstd::std_specs::convert::FromSpecImpl;
use crate::sc::types::dcdt_token_payment::{DcdtTokenPayment, DcdtTokenPaymentRefs};
use crate::sc::types::moa_or_dcdt_token_identifier::MoaOrDcdtTokenIdentifier;
use crate::types::big_uint::BigUint;

verus! {

/// What a payment says: in MOA (`None`) or in which token, which instance, how much.
pub struct MoaOrDcdtTokenPaymentView {
    pub token_identifier: Option<Seq<u8>>,
    pub token_nonce: u64,
    pub amount: nat,
}

/// A payment in the base currency or in one DCDT token.
#[derive(Clone, Debug)]
pub struct MoaOrDcdtTokenPayment {
    pub token_identifier: MoaOrDcdtTokenIdentifier,
    pub token_nonce: u64,
    pub amount: BigUint,
}

impl View for MoaOrDcdtTokenPayment {
    type V = MoaOrDcdtTokenPaymentView;

    open spec fn view(&self) -> MoaOrDcdtTokenPaymentView {
        MoaOrDcdtTokenPaymentView {
            token_identifier: self.token_identifier@,
            token_nonce: self.token_nonce,
            amount: self.amount@,
        }
    }
}

impl MoaOrDcdtTokenPayment {
    /// The payment of `amount` of the instance `token_nonce` of what `token_identifier`
    /// names.
    pub fn new(token_identifier: MoaOrDcdtTokenIdentifier, token_nonce: u64, amount: BigUint) -> (r:
        Self)
        ensures
            r.token_identifier == token_identifier,
            r.token_nonce == token_nonce,
            r.amount == amount,
    {
        MoaOrDcdtTokenPayment { token_identifier, token_nonce, amount }
    }

    /// The same payment, with the token identifier and the amount borrowed.
    pub fn as_refs(&self) -> (r: MoaOrDcdtTokenPaymentRefs<'_>)
        ensures
            r.token_identifier == &self.token_identifier,
            r.token_nonce == self.token_nonce,
            r.amount == &self.amount,
            r@ == self@,
    {
        MoaOrDcdtTokenPaymentRefs {
            token_identifier: &self.token_identifier,
            token_nonce: self.token_nonce,
            amount: &self.amount,
        }
    }
}

impl From<DcdtTokenPayment> for MoaOrDcdtTokenPayment {
    fn from(payment: DcdtTokenPayment) -> (r: Self) {
        MoaOrDcdtTokenPayment {
            token_identifier: MoaOrDcdtTokenIdentifier::Dcdt(payment.token_identifier),
            token_nonce: payment.token_nonce,
            amount: payment.amount,
        }
    }
}

impl FromSpecImpl<DcdtTokenPayment> for MoaOrDcdtTokenPayment {
    open spec fn obeys_from_spec() -> bool {
        true
    }

    open spec fn from_spec(payment: DcdtTokenPayment) -> Self {
        MoaOrDcdtTokenPayment {
            token_identifier: MoaOrDcdtTokenIdentifier::Dcdt(payment.token_identifier),
            token_nonce: payment.token_nonce,
            amount: payment.amount,
        }
    }
}

/// A payment in the base currency or in one DCDT token, with the token identifier and the
/// amount borrowed.
#[derive(Clone, Copy, Debug)]
pub struct MoaOrDcdtTokenPaymentRefs<'a> {
    pub token_identifier: &'a MoaOrDcdtTokenIdentifier,
    pub token_nonce: u64,
    pub amount: &'a BigUint,
}

impl<'a> View for MoaOrDcdtTokenPaymentRefs<'a> {
    type V = MoaOrDcdtTokenPaymentView;

    open spec fn view(&self) -> MoaOrDcdtTokenPaymentView {
        MoaOrDcdtTokenPaymentView {
            token_identifier: self.token_identifier@,
            token_nonce: self.token_nonce,
            amount: self.amount@,
        }
    }
}

impl<'a> MoaOrDcdtTokenPaymentRefs<'a> {
    /// The payment of `amount` of the instance `token_nonce` of what `token_identifier`
    /// names.
    pub fn new(
        token_identifier: &'a MoaOrDcdtTokenIdentifier,
        token_nonce: u64,
        amount: &'a BigUint,
    ) -> (r: Self)
        ensures
            r.token_identifier == token_identifier,
            r.token_nonce == token_nonce,
            r.amount == amount,
    {
        MoaOrDcdtTokenPaymentRefs { token_identifier, token_nonce, amount }
    }

    /// Whether nothing is paid: the amount is zero.
    pub fn is_empty(&self) -> (r: bool)
        ensures
            r == (self@.amount == 0),
    {
        self.amount.is_zero()
    }

    /// Hands the payment to `for_moa` where it is in MOA, as its amount, and to `for_dcdt`
    /// where it is in a token, as a token payment; `context` goes along. Returns what the
    /// one that was called returns.
    pub fn map_moa_or_dcdt<Context, F1, F2, U>(
        self,
        context: Context,
        for_moa: F1,
        for_dcdt: F2,
    ) -> (r: U) where
        F1: FnOnce(Context, &'a BigUint) -> U,
        F2: FnOnce(Context, DcdtTokenPaymentRefs<'a>) -> U,

        requires
            *self.token_identifier is Moa ==> for_moa.requires((context, self.amount)),
            *self.token_identifier matches MoaOrDcdtTokenIdentifier::Dcdt(id)
                ==> for_dcdt.requires(
                (
                    context,
                    (DcdtTokenPaymentRefs {
                        token_identifier: &id,
                        token_nonce: self.token_nonce,
                        amount: self.amount,
                    }),
                ),
            ),
        ensures
            *self.token_identifier is Moa ==> for_moa.ensures((context, self.amount), r),
            *self.token_identifier matches MoaOrDcdtTokenIdentifier::Dcdt(id)
                ==> for_dcdt.ensures(
                (
                    context,
                    (DcdtTokenPaymentRefs {
                        token_identifier: &id,
                        token_nonce: self.token_nonce,
                        amount: self.amount,
                    }),
                ),
                r,
            ),
    {
        match self.token_identifier {
            MoaOrDcdtTokenIdentifier::Moa => for_moa(context, self.amount),
            MoaOrDcdtTokenIdentifier::Dcdt(token_identifier) => for_dcdt(
                context,
                DcdtTokenPaymentRefs::new(token_identifier, self.token_nonce, self.amount),
            ),
        }
    }
}

} // verus!
