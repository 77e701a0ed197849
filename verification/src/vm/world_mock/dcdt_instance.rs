//! One token holding of an account.

use vstd::prelude::*;
use crate::types::big_uint::BigUint;
use crate::types::bytes::{buffers_to_vec, buffers_view};
use crate::types::vm_address::VMAddress;

verus! {

/// What a token holding is, apart from the key it is kept under.
pub struct DcdtInstanceView {
    pub balance: nat,
    pub uri: Seq<Seq<u8>>,
    pub attributes: Seq<u8>,
    pub hash: Option<Seq<u8>>,
    pub royalties: u64,
    pub creator: Option<Seq<u8>>,
}

impl DcdtInstanceView {
    /// The holding that a key has before anything was recorded under it.
    pub open spec fn empty() -> DcdtInstanceView {
        DcdtInstanceView {
            balance: 0,
            uri: Seq::empty(),
            attributes: Seq::empty(),
            hash: None,
            royalties: 0,
            creator: None,
        }
    }

    /// The same holding with `uris` appended, in order, behind the URIs it has.
    pub open spec fn with_uris_appended(self, uris: Seq<Seq<u8>>) -> DcdtInstanceView {
        DcdtInstanceView { uri: self.uri + uris, ..self }
    }
}

/// The holding of one token instance: nonce `0` is the fungible instance of a token
/// identifier, any other nonce one non-fungible or semi-fungible instance.
#[derive(Clone, Debug)]
pub struct DcdtInstance {
    pub token_identifier: Vec<u8>,
    pub nonce: u64,
    pub balance: BigUint,
    pub creator: Option<VMAddress>,
    pub royalties: u64,
    pub hash: Option<Vec<u8>>,
    pub uri: Vec<Vec<u8>>,
    pub attributes: Vec<u8>,
}

impl View for DcdtInstance {
    type V = DcdtInstanceView;

    open spec fn view(&self) -> DcdtInstanceView {
        DcdtInstanceView {
            balance: self.balance@,
            uri: buffers_view(self.uri@),
            attributes: self.attributes@,
            hash: match self.hash {
                Some(h) => Some(h@),
                None => None,
            },
            royalties: self.royalties,
            creator: match self.creator {
                Some(a) => Some(a@),
                None => None,
            },
        }
    }
}

impl DcdtInstance {
    /// The key that the holding is kept under within its account.
    pub open spec fn key(&self) -> (Seq<u8>, u64) {
        (self.token_identifier@, self.nonce)
    }

    /// An empty holding for the given key.
    pub fn new(token_identifier: Vec<u8>, nonce: u64) -> (r: Self)
        ensures
            r.key() == (token_identifier@, nonce),
            r@ == DcdtInstanceView::empty(),
    {
        let r = DcdtInstance {
            token_identifier,
            nonce,
            balance: BigUint::zero(),
            creator: None,
            royalties: 0,
            hash: None,
            uri: Vec::new(),
            attributes: Vec::new(),
        };
        assert(buffers_view(r.uri@) =~= Seq::<Seq<u8>>::empty());
        r
    }

    /// A copy with the same key and contents.
    pub fn duplicate(&self) -> (r: Self)
        ensures
            r.key() == self.key(),
            r@ == self@,
    {
        let hash = match &self.hash {
            Some(h) => Some(h.clone()),
            None => None,
        };
        DcdtInstance {
            token_identifier: self.token_identifier.clone(),
            nonce: self.nonce,
            balance: self.balance.duplicate(),
            creator: self.creator,
            royalties: self.royalties,
            hash,
            uri: buffers_to_vec(self.uri.as_slice()),
            attributes: self.attributes.clone(),
        }
    }

    /// Appends `new_uris`, in order, behind the URIs that the holding has.
    pub fn append_uris(&mut self, new_uris: Vec<Vec<u8>>)
        ensures
            final(self).key() == old(self).key(),
            final(self)@ == old(self)@.with_uris_appended(buffers_view(new_uris@)),
    {
        let mut new_uris = new_uris;
        let ghost added = new_uris@;
        self.uri.append(&mut new_uris);
        assert(buffers_view(self.uri@) =~= buffers_view(old(self).uri@) + buffers_view(added));
    }
}

} // verus!
