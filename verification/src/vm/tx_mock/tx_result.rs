//! The outcome of a transaction.

use vstd::prelude::*;
use vstd::string::*;
use crate::chain_core::return_code::ReturnCode;
use crate::types::bytes::buffers_view;
use crate::vm::tx_mock::tx_log::{logs_view, TxLog, TxLogView};

verus! {

/// What an outcome says: the status, the message that explains a failure, the returned
/// values, the emitted events in order, and the gas used.
pub struct TxResultView {
    pub status: ReturnCode,
    pub message: Seq<char>,
    pub values: Seq<Seq<u8>>,
    pub logs: Seq<TxLogView>,
    pub gas_used: u64,
}

impl TxResultView {
    /// The outcome of a transaction that did nothing and went through.
    pub open spec fn empty() -> TxResultView {
        TxResultView {
            status: ReturnCode::Success,
            message: Seq::empty(),
            values: Seq::empty(),
            logs: Seq::empty(),
            gas_used: 0,
        }
    }

    /// The outcome of a transaction that the virtual machine rejected with `message`.
    pub open spec fn vm_error(message: Seq<char>) -> TxResultView {
        TxResultView { status: ReturnCode::ExecutionFailed, message, ..TxResultView::empty() }
    }

    /// The outcome of a transaction that went through and emitted `logs`.
    pub open spec fn success_with_logs(logs: Seq<TxLogView>) -> TxResultView {
        TxResultView { logs, ..TxResultView::empty() }
    }
}

/// The outcome of a transaction. It is the only way by which success or failure is told.
#[derive(Clone, Debug)]
pub struct TxResult {
    pub result_status: ReturnCode,
    pub result_message: String,
    pub result_values: Vec<Vec<u8>>,
    pub result_logs: Vec<TxLog>,
    pub gas_used: u64,
}

impl View for TxResult {
    type V = TxResultView;

    open spec fn view(&self) -> TxResultView {
        TxResultView {
            status: self.result_status,
            message: self.result_message@,
            values: buffers_view(self.result_values@),
            logs: logs_view(self.result_logs@),
            gas_used: self.gas_used,
        }
    }
}

impl Default for TxResult {
    /// The outcome of a transaction that did nothing and went through.
    fn default() -> (r: Self)
        ensures
            r@ == TxResultView::empty(),
    {
        let r = TxResult {
            result_status: ReturnCode::Success,
            result_message: String::new(),
            result_values: Vec::new(),
            result_logs: Vec::new(),
            gas_used: 0,
        };
        assert(buffers_view(r.result_values@) =~= Seq::<Seq<u8>>::empty());
        assert(logs_view(r.result_logs@) =~= Seq::<TxLogView>::empty());
        r
    }
}

impl TxResult {

    /// The outcome of a transaction that the virtual machine rejected with `result_message`.
    pub fn from_vm_error(result_message: &str) -> (r: Self)
        ensures
            r@ == TxResultView::vm_error(result_message@),
    {
        let mut r = TxResult::default();
        r.result_status = ReturnCode::ExecutionFailed;
        r.result_message = String::from_str(result_message);
        r
    }

    /// The outcome of a transaction that went through and emitted the one event `log`.
    pub fn from_log(log: TxLog) -> (r: Self)
        ensures
            r@ == TxResultView::success_with_logs(seq![log@]),
    {
        let mut r = TxResult::default();
        r.result_logs.push(log);
        assert(logs_view(r.result_logs@) =~= seq![log@]);
        r
    }

    /// Whether the transaction went through.
    pub fn is_success(&self) -> (r: bool)
        ensures
            r == (self@.status == ReturnCode::Success),
    {
        self.result_status.is_success()
    }
}

} // verus!
