//! The name of the base currency or of a DCDT token.

use vstd::prelude::*;
use crate::sc::types::TokenIdentifier;

verus! {

/// Names either the base currency, MOA, or a DCDT token. Its view is `None` for MOA and the
/// token identifier for a token.
#[derive(Clone, Debug)]
pub enum MoaOrDcdtTokenIdentifier {
    Moa,
    Dcdt(TokenIdentifier),
}

impl View for MoaOrDcdtTokenIdentifier {
    type V = Option<Seq<u8>>;

    open spec fn view(&self) -> Option<Seq<u8>> {
        match self {
            MoaOrDcdtTokenIdentifier::Moa => None,
            MoaOrDcdtTokenIdentifier::Dcdt(token_identifier) => Some(token_identifier@),
        }
    }
}

impl MoaOrDcdtTokenIdentifier {
    /// The base currency.
    pub fn moa() -> (r: Self)
        ensures
            r@ is None,
    {
        MoaOrDcdtTokenIdentifier::Moa
    }

    /// The DCDT token `token_identifier`.
    pub fn dcdt(token_identifier: TokenIdentifier) -> (r: Self)
        ensures
            r@ == Some(token_identifier@),
    {
        MoaOrDcdtTokenIdentifier::Dcdt(token_identifier)
    }

    /// Whether the base currency is named.
    pub fn is_moa(&self) -> (r: bool)
        ensures
            r == (self@ is None),
    {
        match self {
            MoaOrDcdtTokenIdentifier::Moa => true,
            MoaOrDcdtTokenIdentifier::Dcdt(_) => false,
        }
    }

    /// Whether a DCDT token is named.
    pub fn is_dcdt(&self) -> (r: bool)
        ensures
            r == (self@ is Some),
    {
        !self.is_moa()
    }

    /// A copy of the name.
    pub fn duplicate(&self) -> (r: Self)
        ensures
            r@ == self@,
    {
        match self {
            MoaOrDcdtTokenIdentifier::Moa => MoaOrDcdtTokenIdentifier::Moa,
            MoaOrDcdtTokenIdentifier::Dcdt(token_identifier) => MoaOrDcdtTokenIdentifier::Dcdt(
                token_identifier.clone(),
            ),
        }
    }
}

} // verus!
