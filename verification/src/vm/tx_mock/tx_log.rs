//! An event that a transaction emits.

use vstd::prelude::*;
use crate::types::bytes::buffers_view;
use crate::types::vm_address::VMAddress;

verus! {

/// What an event says: who emitted it, from which endpoint, its topics in order, its data.
pub struct TxLogView {
    pub address: Seq<u8>,
    pub endpoint: Seq<char>,
    pub topics: Seq<Seq<u8>>,
    pub data: Seq<u8>,
}

/// An event that a transaction emits.
#[derive(Clone, Debug)]
pub struct TxLog {
    pub address: VMAddress,
    pub endpoint: String,
    pub topics: Vec<Vec<u8>>,
    pub data: Vec<u8>,
}

impl View for TxLog {
    type V = TxLogView;

    open spec fn view(&self) -> TxLogView {
        TxLogView {
            address: self.address@,
            endpoint: self.endpoint@,
            topics: buffers_view(self.topics@),
            data: self.data@,
        }
    }
}

/// The contents of a list of events.
pub open spec fn logs_view(logs: Seq<TxLog>) -> Seq<TxLogView> {
    Seq::new(logs.len(), |i: int| logs[i]@)
}

} // verus!
