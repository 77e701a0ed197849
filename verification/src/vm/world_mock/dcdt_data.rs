//! The token holdings of one account.

use vstd::prelude::*;
use crate::types::assoc::{
    assoc_map, distinct, lemma_assoc_absent, lemma_assoc_at, lemma_assoc_push, lemma_assoc_update,
};
use crate::types::bytes::{buffers_view, bytes_eq, bytes_to_vec};
use crate::vm::world_mock::dcdt_instance::{DcdtInstance, DcdtInstanceView};

verus! {

/// The keys of a list of holdings, in order.
pub open spec fn instance_keys(list: Seq<DcdtInstance>) -> Seq<(Seq<u8>, u64)> {
    Seq::new(list.len(), |i: int| list[i].key())
}

/// The contents of a list of holdings, in order.
pub open spec fn instance_views(list: Seq<DcdtInstance>) -> Seq<DcdtInstanceView> {
    Seq::new(list.len(), |i: int| list[i]@)
}

/// The holding recorded under `key`, or the empty holding where there is none.
pub open spec fn holding_at(
    holdings: Map<(Seq<u8>, u64), DcdtInstanceView>,
    key: (Seq<u8>, u64),
) -> DcdtInstanceView {
    if holdings.dom().contains(key) {
        holdings[key]
    } else {
        DcdtInstanceView::empty()
    }
}

/// The holdings after `uris` were appended to the holding under `(token, nonce)`, which is
/// created empty first where the account has none.
pub open spec fn add_uris_spec(
    holdings: Map<(Seq<u8>, u64), DcdtInstanceView>,
    token: Seq<u8>,
    nonce: u64,
    uris: Seq<Seq<u8>>,
) -> Map<(Seq<u8>, u64), DcdtInstanceView> {
    holdings.insert((token, nonce), holding_at(holdings, (token, nonce)).with_uris_appended(uris))
}

/// The token holdings of one account, each under its token identifier and nonce.
#[derive(Clone, Debug)]
pub struct AccountDcdt {
    instances: Vec<DcdtInstance>,
}

impl View for AccountDcdt {
    type V = Map<(Seq<u8>, u64), DcdtInstanceView>;

    closed spec fn view(&self) -> Map<(Seq<u8>, u64), DcdtInstanceView> {
        assoc_map(instance_keys(self.instances@), instance_views(self.instances@))
    }
}

impl AccountDcdt {
    /// No key has two holdings.
    pub closed spec fn wf(&self) -> bool {
        distinct(instance_keys(self.instances@))
    }

    /// No holdings.
    pub fn new() -> (r: Self)
        ensures
            r.wf(),
            r@ == Map::<(Seq<u8>, u64), DcdtInstanceView>::empty(),
    {
        let r = AccountDcdt { instances: Vec::new() };
        assert(r@ =~= Map::<(Seq<u8>, u64), DcdtInstanceView>::empty());
        r
    }

    fn find(&self, token_identifier: &[u8], nonce: u64) -> (r: Option<usize>)
        ensures
            match r {
                Some(i) => i < self.instances@.len() && self.instances@[i as int].key() == (
                    token_identifier@,
                    nonce,
                ),
                None => forall|j: int|
                    0 <= j < self.instances@.len() ==> instance_keys(self.instances@)[j] != (
                        token_identifier@,
                        nonce,
                    ),
            },
    {
        let mut i: usize = 0;
        while i < self.instances.len()
            invariant
                i <= self.instances@.len(),
                forall|j: int|
                    0 <= j < i ==> instance_keys(self.instances@)[j] != (token_identifier@, nonce),
            decreases self.instances.len() - i,
        {
            if self.instances[i].nonce == nonce && bytes_eq(
                self.instances[i].token_identifier.as_slice(),
                token_identifier,
            ) {
                return Some(i);
            }
            i += 1;
        }
        None
    }

    /// The holding under `(token_identifier, nonce)`, if the account has one.
    pub fn get_instance(&self, token_identifier: &[u8], nonce: u64) -> (r: Option<&DcdtInstance>)
        requires
            self.wf(),
        ensures
            r is Some == self@.dom().contains((token_identifier@, nonce)),
            r matches Some(instance) ==> instance.key() == (token_identifier@, nonce)
                && instance@ == self@[(token_identifier@, nonce)],
    {
        let ghost keys = instance_keys(self.instances@);
        let ghost vals = instance_views(self.instances@);
        match self.find(token_identifier, nonce) {
            Some(i) => {
                proof {
                    lemma_assoc_at(keys, vals, i as int);
                }
                Some(&self.instances[i])
            },
            None => {
                proof {
                    lemma_assoc_absent(keys, vals, (token_identifier@, nonce));
                }
                None
            },
        }
    }

    /// Records `instance` under its key. A holding that the account already has under
    /// that key is replaced.
    pub fn insert_instance(&mut self, instance: DcdtInstance)
        requires
            old(self).wf(),
        ensures
            final(self).wf(),
            final(self)@ == old(self)@.insert(instance.key(), instance@),
    {
        let ghost keys = instance_keys(self.instances@);
        let ghost vals = instance_views(self.instances@);
        match self.find(instance.token_identifier.as_slice(), instance.nonce) {
            Some(i) => {
                self.instances[i] = instance;
                proof {
                    assert(instance_keys(self.instances@) =~= keys);
                    assert(instance_views(self.instances@) =~= vals.update(i as int, instance@));
                    lemma_assoc_update(keys, vals, i as int, instance@);
                }
            },
            None => {
                self.instances.push(instance);
                proof {
                    assert(instance_keys(self.instances@) =~= keys.push(instance.key()));
                    assert(instance_views(self.instances@) =~= vals.push(instance@));
                    lemma_assoc_push(keys, vals, instance.key(), instance@);
                }
            },
        }
    }

    /// Appends `new_uris`, in order, to the URIs of the holding under
    /// `(token_identifier, nonce)`. Where the account has no such holding, an empty one is
    /// created first.
    pub fn add_uris(&mut self, token_identifier: &[u8], nonce: u64, new_uris: Vec<Vec<u8>>)
        requires
            old(self).wf(),
        ensures
            final(self).wf(),
            final(self)@ == add_uris_spec(
                old(self)@,
                token_identifier@,
                nonce,
                buffers_view(new_uris@),
            ),
    {
        let ghost keys = instance_keys(self.instances@);
        let ghost vals = instance_views(self.instances@);
        let ghost key = (token_identifier@, nonce);
        match self.find(token_identifier, nonce) {
            Some(i) => {
                proof {
                    lemma_assoc_at(keys, vals, i as int);
                }
                self.instances[i].append_uris(new_uris);
                proof {
                    let updated = self.instances@[i as int]@;
                    assert(instance_keys(self.instances@) =~= keys);
                    assert(instance_views(self.instances@) =~= vals.update(i as int, updated));
                    lemma_assoc_update(keys, vals, i as int, updated);
                }
            },
            None => {
                proof {
                    lemma_assoc_absent(keys, vals, key);
                }
                let mut instance = DcdtInstance::new(bytes_to_vec(token_identifier), nonce);
                instance.append_uris(new_uris);
                self.instances.push(instance);
                proof {
                    assert(instance_keys(self.instances@) =~= keys.push(key));
                    assert(instance_views(self.instances@) =~= vals.push(instance@));
                    lemma_assoc_push(keys, vals, key, instance@);
                }
            },
        }
    }

    /// A copy with the same holdings.
    pub fn duplicate(&self) -> (r: Self)
        requires
            self.wf(),
        ensures
            r.wf(),
            r@ == self@,
    {
        let mut instances: Vec<DcdtInstance> = Vec::new();
        let mut i: usize = 0;
        while i < self.instances.len()
            invariant
                i <= self.instances@.len(),
                instances@.len() == i,
                forall|j: int|
                    0 <= j < i ==> instances@[j].key() == self.instances@[j].key() && instances@[j]@
                        == self.instances@[j]@,
            decreases self.instances.len() - i,
        {
            instances.push(self.instances[i].duplicate());
            i += 1;
        }
        proof {
            assert(instance_keys(instances@) =~= instance_keys(self.instances@));
            assert(instance_views(instances@) =~= instance_views(self.instances@));
        }
        AccountDcdt { instances }
    }
}

} // verus!
