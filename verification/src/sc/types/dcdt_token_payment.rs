//! A payment in one DCDT token.

use vstd::prelude::*;
use vstd::std_specs::convert::FromSpecImpl;
use crate::sc::types::TokenIdentifier;
use crate::types::big_uint::BigUint;

verus! {

/// What a token payment says: which token, which instance of it, how much.
pub struct DcdtTokenPaymentView {
    pub token_identifier: Seq<u8>,
    pub token_nonce: u64,
    pub amount: nat,
}

/// A payment in one DCDT token. Nonce `0` is the fungible instance of the token.
#[derive(Clone, Debug)]
pub struct DcdtTokenPayment {
    pub token_identifier: TokenIdentifier,
    pub token_nonce: u64,
    pub amount: BigUint,
}

/// Several token payments that travel together.
pub type MultiDcdtPayment = Vec<DcdtTokenPayment>;

impl View for DcdtTokenPayment {
    type V = DcdtTokenPaymentView;

    open spec fn view(&self) -> DcdtTokenPaymentView {
        DcdtTokenPaymentView {
            token_identifier: self.token_identifier@,
            token_nonce: self.token_nonce,
            amount: self.amount@,
        }
    }
}

/// What a list of token payments says.
pub open spec fn payments_view(payments: Seq<DcdtTokenPayment>) -> Seq<DcdtTokenPaymentView> {
    Seq::new(payments.len(), |i: int| payments[i]@)
}

impl DcdtTokenPayment {
    /// The payment of `amount` of the instance `token_nonce` of the token
    /// `token_identifier`.
    pub fn new(token_identifier: TokenIdentifier, token_nonce: u64, amount: BigUint) -> (r: Self)
        ensures
            r.token_identifier == token_identifier,
            r.token_nonce == token_nonce,
            r.amount == amount,
    {
        DcdtTokenPayment { token_identifier, token_nonce, amount }
    }

    /// A copy of the payment.
    pub fn duplicate(&self) -> (r: Self)
        ensures
            r@ == self@,
    {
        DcdtTokenPayment {
            token_identifier: self.token_identifier.clone(),
            token_nonce: self.token_nonce,
            amount: self.amount.duplicate(),
        }
    }

    /// The same payment, with the token identifier and the amount borrowed.
    pub fn as_refs(&self) -> (r: DcdtTokenPaymentRefs<'_>)
        ensures
            r.token_identifier == &self.token_identifier,
            r.token_nonce == self.token_nonce,
            r.amount == &self.amount,
            r@ == self@,
    {
        DcdtTokenPaymentRefs {
            token_identifier: &self.token_identifier,
            token_nonce: self.token_nonce,
            amount: &self.amount,
        }
    }
}

impl From<(TokenIdentifier, u64, BigUint)> for DcdtTokenPayment {
    fn from(value: (TokenIdentifier, u64, BigUint)) -> (r: Self) {
        DcdtTokenPayment { token_identifier: value.0, token_nonce: value.1, amount: value.2 }
    }
}

impl FromSpecImpl<(TokenIdentifier, u64, BigUint)> for DcdtTokenPayment {
    open spec fn obeys_from_spec() -> bool {
        true
    }

    open spec fn from_spec(value: (TokenIdentifier, u64, BigUint)) -> Self {
        DcdtTokenPayment { token_identifier: value.0, token_nonce: value.1, amount: value.2 }
    }
}

/// A payment in one DCDT token, with the token identifier and the amount borrowed.
#[derive(Clone, Copy, Debug)]
pub struct DcdtTokenPaymentRefs<'a> {
    pub token_identifier: &'a TokenIdentifier,
    pub token_nonce: u64,
    pub amount: &'a BigUint,
}

impl<'a> View for DcdtTokenPaymentRefs<'a> {
    type V = DcdtTokenPaymentView;

    open spec fn view(&self) -> DcdtTokenPaymentView {
        DcdtTokenPaymentView {
            token_identifier: self.token_identifier@,
            token_nonce: self.token_nonce,
            amount: self.amount@,
        }
    }
}

impl<'a> DcdtTokenPaymentRefs<'a> {
    /// The payment of `amount` of the instance `token_nonce` of the token
    /// `token_identifier`.
    pub fn new(
        token_identifier: &'a TokenIdentifier,
        token_nonce: u64,
        amount: &'a BigUint,
    ) -> (r: Self)
        ensures
            r.token_identifier == token_identifier,
            r.token_nonce == token_nonce,
            r.amount == amount,
    {
        DcdtTokenPaymentRefs { token_identifier, token_nonce, amount }
    }

    /// The same payment as a value of its own.
    pub fn to_owned_payment(&self) -> (r: DcdtTokenPayment)
        ensures
            r@ == self@,
    {
        DcdtTokenPayment {
            token_identifier: self.token_identifier.clone(),
            token_nonce: self.token_nonce,
            amount: self.amount.duplicate(),
        }
    }
}

/// A copy of a list of token payments.
pub fn duplicate_payments(payments: &Vec<DcdtTokenPayment>) -> (r: Vec<DcdtTokenPayment>)
    ensures
        payments_view(r@) == payments_view(payments@),
{
    let mut out: Vec<DcdtTokenPayment> = Vec::new();
    let mut i: usize = 0;
    while i < payments.len()
        invariant
            i <= payments@.len(),
            out@.len() == i,
            forall|j: int| 0 <= j < i ==> out@[j]@ == payments@[j]@,
        decreases payments.len() - i,
    {
        out.push(payments[i].duplicate());
        i += 1;
    }
    proof {
        assert(payments_view(out@) =~= payments_view(payments@));
    }
    out
}

} // verus!
