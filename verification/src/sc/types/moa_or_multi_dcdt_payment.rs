//! A payment in the base currency or in any number of DCDT tokens.

use vstd::prelude::*;
use crate::sc::types::dcdt_token_payment::{payments_view, DcdtTokenPayment, DcdtTokenPaymentView};
use crate::types::big_uint::BigUint;

verus! {

/// What a payment says: an amount of MOA, or token payments in order.
pub enum MoaOrMultiDcdtPaymentView {
    Moa(nat),
    MultiDcdt(Seq<DcdtTokenPaymentView>),
}

/// A payment in the base currency or in any number of DCDT tokens.
#[derive(Clone, Debug)]
pub enum MoaOrMultiDcdtPayment {
    Moa(BigUint),
    MultiDcdt(Vec<DcdtTokenPayment>),
}

impl View for MoaOrMultiDcdtPayment {
    type V = MoaOrMultiDcdtPaymentView;

    open spec fn view(&self) -> MoaOrMultiDcdtPaymentView {
        match self {
            MoaOrMultiDcdtPayment::Moa(amount) => MoaOrMultiDcdtPaymentView::Moa(amount@),
            MoaOrMultiDcdtPayment::MultiDcdt(payments) => MoaOrMultiDcdtPaymentView::MultiDcdt(
                payments_view(payments@),
            ),
        }
    }
}

} // verus!
