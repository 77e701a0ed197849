//! The builtin function that appends URIs to a token holding of the caller.

use vstd::prelude::*;
use crate::chain_core::builtin_func_names::DCDT_NFT_ADD_URI_FUNC_NAME;
use crate::chain_core::return_code::ReturnCode;
use crate::types::bytes::{buffers_from, buffers_to_vec, buffers_view};
use crate::types::top_encode::{
    be_value, lemma_u64_round_trip, minimal_be, top_decode_u64, top_encode_u64,
};
use crate::vm::tx_execution::blockchain_vm::BlockchainVMRef;
use crate::vm::tx_execution::builtin_func_trait::BuiltinFunction;
use crate::vm::tx_mock::blockchain_update::BlockchainUpdate;
use crate::vm::tx_mock::tx_cache::{visible_account, TxCache};
use crate::vm::tx_mock::tx_input::TxInput;
use crate::vm::tx_mock::tx_log::{TxLog, TxLogView};
use crate::vm::tx_mock::tx_result::{TxResult, TxResultView};
use crate::vm::world_mock::account_data::{AccountData, AccountDataView};
use crate::vm::world_mock::dcdt_data::{add_uris_spec, holding_at};

verus! {

/// The message of a call with fewer than three arguments.
pub const ADD_URI_TOO_FEW_ARGUMENTS: &'static str = "DCDTNFTAddURI expects at least 3 arguments";

/// The message of a call whose nonce argument is too long to be a nonce.
pub const ADD_URI_NONCE_TOO_LONG: &'static str = "DCDTNFTAddURI nonce argument exceeds 8 bytes";

/// Why a call with the arguments `args` is rejected, if it is.
pub open spec fn add_uri_rejection(args: Seq<Seq<u8>>) -> Option<Seq<char>> {
    if args.len() < 3 {
        Some(ADD_URI_TOO_FEW_ARGUMENTS@)
    } else if args[1].len() > 8 {
        Some(ADD_URI_NONCE_TOO_LONG@)
    } else {
        None
    }
}

/// The nonce that the arguments name.
pub open spec fn add_uri_nonce(args: Seq<Seq<u8>>) -> u64 {
    be_value(args[1]) as u64
}

/// The event of a call that went through: the token identifier, the nonce in the numeric
/// wire encoding, an empty value, then the added URIs in the order of the arguments.
pub open spec fn add_uri_log(from: Seq<u8>, args: Seq<Seq<u8>>) -> TxLogView {
    TxLogView {
        address: from,
        endpoint: DCDT_NFT_ADD_URI_FUNC_NAME@,
        topics: seq![args[0], minimal_be(add_uri_nonce(args) as nat), Seq::<u8>::empty()]
            + args.skip(2),
        data: Seq::empty(),
    }
}

/// The caller's account after a call that went through.
pub open spec fn add_uri_account(account: AccountDataView, args: Seq<Seq<u8>>) -> AccountDataView {
    AccountDataView {
        dcdt: add_uris_spec(account.dcdt, args[0], add_uri_nonce(args), args.skip(2)),
        ..account
    }
}

/// The outcome and the account changes of a call by `from` with the arguments `args`, on a
/// cache that holds the changes `overlay` over the ledger `source`.
pub open spec fn add_uri_outcome(
    from: Seq<u8>,
    args: Seq<Seq<u8>>,
    overlay: Map<Seq<u8>, AccountDataView>,
    source: Map<Seq<u8>, AccountDataView>,
) -> (TxResultView, Map<Seq<u8>, AccountDataView>) {
    match add_uri_rejection(args) {
        Some(message) => (TxResultView::vm_error(message), Map::empty()),
        None => (
            TxResultView::success_with_logs(seq![add_uri_log(from, args)]),
            overlay.insert(from, add_uri_account(visible_account(overlay, source, from), args)),
        ),
    }
}

/// The builtin function that appends URIs to a token holding of the caller. Its arguments
/// are the token identifier, the nonce, and one URI or more.
pub struct DCDTNftAddUri;

impl BuiltinFunction for DCDTNftAddUri {
    open spec fn spec_name(&self) -> Seq<char> {
        DCDT_NFT_ADD_URI_FUNC_NAME@
    }

    open spec fn min_arguments(&self) -> nat {
        3
    }

    fn name(&self) -> (r: &str) {
        DCDT_NFT_ADD_URI_FUNC_NAME
    }

    fn execute<F>(
        &self,
        tx_input: TxInput,
        tx_cache: TxCache<'_>,
        _vm: &BlockchainVMRef,
        _f: F,
    ) -> (r: (TxResult, BlockchainUpdate)) where F: FnOnce()
        ensures
            (r.0@, r.1@) == add_uri_outcome(
                tx_input.from@,
                buffers_view(tx_input.args@),
                tx_cache.overlay(),
                tx_cache.source(),
            ),
    {
        let ghost args = buffers_view(tx_input.args@);
        if tx_input.args.len() < 3 {
            let err_result = TxResult::from_vm_error(ADD_URI_TOO_FEW_ARGUMENTS);
            return (err_result, BlockchainUpdate::empty());
        }
        let nonce = match top_decode_u64(tx_input.args[1].as_slice()) {
            Some(nonce) => nonce,
            None => {
                let err_result = TxResult::from_vm_error(ADD_URI_NONCE_TOO_LONG);
                return (err_result, BlockchainUpdate::empty());
            },
        };
        assert(nonce == add_uri_nonce(args));
        let token_identifier = tx_input.args[0].clone();
        let new_uris = buffers_from(&tx_input.args, 2);
        let added_uris = buffers_to_vec(new_uris.as_slice());

        let mut tx_cache = tx_cache;
        let uri_token = &token_identifier;
        let add_uris = |account: AccountData| -> (changed: AccountData)
            requires
                account.wf(),
            ensures
                changed.wf(),
                changed.address@ == account.address@,
                changed@ == add_uri_account(account@, args),
            {
                let mut account = account;
                account.dcdt.add_uris(uri_token.as_slice(), nonce, added_uris);
                account
            };
        tx_cache.with_account_mut(&tx_input.from, add_uris);

        let mut topics: Vec<Vec<u8>> = Vec::new();
        topics.push(token_identifier);
        topics.push(top_encode_u64(nonce));
        topics.push(Vec::new());
        let mut new_uris = new_uris;
        let ghost head = topics@;
        let ghost tail = new_uris@;
        topics.append(&mut new_uris);
        let dcdt_nft_add_uri_log = TxLog {
            address: tx_input.from,
            endpoint: DCDT_NFT_ADD_URI_FUNC_NAME.to_owned(),
            topics,
            data: Vec::new(),
        };
        proof {
            assert(buffers_view(head + tail) =~= buffers_view(head) + buffers_view(tail));
            assert(buffers_view(head) =~= seq![
                args[0],
                minimal_be(nonce as nat),
                Seq::<u8>::empty(),
            ]);
            assert(dcdt_nft_add_uri_log@ == add_uri_log(tx_input.from@, args));
        }
        let tx_result = TxResult::from_log(dcdt_nft_add_uri_log);

        let blockchain_updates = tx_cache.into_blockchain_updates();
        assert(blockchain_updates@.dom().contains(tx_input.from@));
        (tx_result, blockchain_updates)
    }
}

/// The account after the calls with the argument lists `calls` went through one after the
/// other, each on the account that the one before it left.
pub open spec fn add_uri_calls(
    account: AccountDataView,
    calls: Seq<Seq<Seq<u8>>>,
) -> AccountDataView
    decreases calls.len(),
{
    if calls.len() == 0 {
        account
    } else {
        add_uri_account(add_uri_calls(account, calls.drop_last()), calls.last())
    }
}

/// The URIs that the calls `calls` name for the holding under `(token, nonce)`, in the
/// order of the calls and, within a call, of its arguments.
pub open spec fn uris_named_for(calls: Seq<Seq<Seq<u8>>>, token: Seq<u8>, nonce: u64) -> Seq<
    Seq<u8>,
>
    decreases calls.len(),
{
    if calls.len() == 0 {
        Seq::empty()
    } else {
        let earlier = uris_named_for(calls.drop_last(), token, nonce);
        let call = calls.last();
        if call[0] == token && add_uri_nonce(call) == nonce {
            earlier + call.skip(2)
        } else {
            earlier
        }
    }
}

/// A call with fewer than three arguments fails, whatever the cache holds, and leaves no
/// account change.
pub proof fn lemma_add_uri_too_few_arguments(
    from: Seq<u8>,
    args: Seq<Seq<u8>>,
    overlay: Map<Seq<u8>, AccountDataView>,
    source: Map<Seq<u8>, AccountDataView>,
)
    requires
        args.len() < 3,
    ensures
        add_uri_outcome(from, args, overlay, source).0.status != ReturnCode::Success,
        add_uri_outcome(from, args, overlay, source).0.message == ADD_URI_TOO_FEW_ARGUMENTS@,
        add_uri_outcome(from, args, overlay, source).1 == Map::<Seq<u8>, AccountDataView>::empty(),
{
}

/// A call either fails and leaves no account change, or goes through and leaves one: no
/// failure carries a change.
pub proof fn lemma_add_uri_atomic(
    from: Seq<u8>,
    args: Seq<Seq<u8>>,
    overlay: Map<Seq<u8>, AccountDataView>,
    source: Map<Seq<u8>, AccountDataView>,
)
    ensures
        ({
            let outcome = add_uri_outcome(from, args, overlay, source);
            let no_change = outcome.1 == Map::<Seq<u8>, AccountDataView>::empty();
            ||| outcome.0.status != ReturnCode::Success && no_change
            ||| outcome.0.status == ReturnCode::Success && !no_change
        }),
{
    let outcome = add_uri_outcome(from, args, overlay, source);
    if add_uri_rejection(args) is None {
        assert(outcome.1.dom().contains(from));
    }
}

/// A call for the token `token` and the nonce `nonce` with the URIs `uris`, of which there
/// is at least one, goes through and emits one event: its topics are the token, the nonce
/// in the numeric wire encoding, an empty value and then the URIs in order, and its data is
/// empty.
pub proof fn lemma_add_uri_log_shape(
    from: Seq<u8>,
    token: Seq<u8>,
    nonce: u64,
    uris: Seq<Seq<u8>>,
    overlay: Map<Seq<u8>, AccountDataView>,
    source: Map<Seq<u8>, AccountDataView>,
)
    requires
        uris.len() >= 1,
    ensures
        ({
            let args = seq![token, minimal_be(nonce as nat)] + uris;
            let outcome = add_uri_outcome(from, args, overlay, source);
            &&& outcome.0.status == ReturnCode::Success
            &&& outcome.0.logs.len() == 1
            &&& outcome.0.logs[0].address == from
            &&& outcome.0.logs[0].endpoint == DCDT_NFT_ADD_URI_FUNC_NAME@
            &&& outcome.0.logs[0].topics == seq![
                token,
                minimal_be(nonce as nat),
                Seq::<u8>::empty(),
            ] + uris
            &&& outcome.0.logs[0].data == Seq::<u8>::empty()
        }),
{
    let args = seq![token, minimal_be(nonce as nat)] + uris;
    lemma_u64_round_trip(nonce);
    assert(args[0] == token);
    assert(args[1] == minimal_be(nonce as nat));
    assert(args.skip(2) =~= uris);
}

/// Calls that went through only ever append: after any sequence of them, the URIs of the
/// holding under `(token, nonce)` are the URIs it had before, followed by the URIs that
/// the calls named for it, in call order. Its other contents stay as they were.
pub proof fn lemma_add_uri_append_only(
    account: AccountDataView,
    calls: Seq<Seq<Seq<u8>>>,
    token: Seq<u8>,
    nonce: u64,
)
    requires
        forall|i: int| 0 <= i < calls.len() ==> add_uri_rejection(#[trigger] calls[i]) is None,
    ensures
        holding_at(add_uri_calls(account, calls).dcdt, (token, nonce)) == holding_at(
            account.dcdt,
            (token, nonce),
        ).with_uris_appended(uris_named_for(calls, token, nonce)),
    decreases calls.len(),
{
    let before = holding_at(account.dcdt, (token, nonce));
    if calls.len() == 0 {
        assert(before.uri + Seq::<Seq<u8>>::empty() =~= before.uri);
    } else {
        let earlier = calls.drop_last();
        let call = calls.last();
        assert forall|i: int| 0 <= i < earlier.len() implies add_uri_rejection(
            #[trigger] earlier[i],
        ) is None by {
            assert(earlier[i] == calls[i]);
        }
        lemma_add_uri_append_only(account, earlier, token, nonce);
        let middle = add_uri_calls(account, earlier);
        let named = uris_named_for(earlier, token, nonce);
        if call[0] == token && add_uri_nonce(call) == nonce {
            assert((before.uri + named) + call.skip(2) =~= before.uri + (named + call.skip(2)));
        } else {
            assert((call[0], add_uri_nonce(call)) != (token, nonce));
        }
    }
}

/// The ledger after the calls with the argument lists `calls`, all by `from`, ran one
/// after the other, each on a cache of its own over the ledger that the one before it
/// left, and each update was committed.
pub open spec fn ledger_after_calls(
    source: Map<Seq<u8>, AccountDataView>,
    from: Seq<u8>,
    calls: Seq<Seq<Seq<u8>>>,
) -> Map<Seq<u8>, AccountDataView>
    decreases calls.len(),
{
    if calls.len() == 0 {
        source
    } else {
        let before = ledger_after_calls(source, from, calls.drop_last());
        before.union_prefer_right(add_uri_outcome(from, calls.last(), Map::empty(), before).1)
    }
}

/// Committing the update of a call leaves the caller's account with the URIs appended and
/// every other account as it was; committing the update of a rejected call changes
/// nothing.
pub proof fn lemma_add_uri_commit(
    source: Map<Seq<u8>, AccountDataView>,
    from: Seq<u8>,
    args: Seq<Seq<u8>>,
    other: Seq<u8>,
)
    ensures
        ({
            let committed = source.union_prefer_right(
                add_uri_outcome(from, args, Map::empty(), source).1,
            );
            let empty = Map::<Seq<u8>, AccountDataView>::empty();
            &&& add_uri_rejection(args) is Some ==> committed == source
            &&& add_uri_rejection(args) is None ==> visible_account(empty, committed, from)
                == add_uri_account(visible_account(empty, source, from), args)
            &&& other != from ==> visible_account(empty, committed, other) == visible_account(
                empty,
                source,
                other,
            )
        }),
{
    let committed = source.union_prefer_right(add_uri_outcome(from, args, Map::empty(), source).1);
    if add_uri_rejection(args) is Some {
        assert(committed =~= source);
    }
}

/// On the ledger too, calls only ever append: after any sequence of calls by `from` that
/// went through and were committed, the URIs of the caller's holding under
/// `(token, nonce)` are the URIs it had before, followed by the URIs that the calls named
/// for it, in call order.
pub proof fn lemma_add_uri_ledger_append_only(
    source: Map<Seq<u8>, AccountDataView>,
    from: Seq<u8>,
    calls: Seq<Seq<Seq<u8>>>,
    token: Seq<u8>,
    nonce: u64,
)
    requires
        forall|i: int| 0 <= i < calls.len() ==> add_uri_rejection(#[trigger] calls[i]) is None,
    ensures
        ({
            let empty = Map::<Seq<u8>, AccountDataView>::empty();
            let before = visible_account(empty, source, from);
            let after = visible_account(empty, ledger_after_calls(source, from, calls), from);
            &&& after == add_uri_calls(before, calls)
            &&& holding_at(after.dcdt, (token, nonce)) == holding_at(
                before.dcdt,
                (token, nonce),
            ).with_uris_appended(uris_named_for(calls, token, nonce))
        }),
    decreases calls.len(),
{
    let empty = Map::<Seq<u8>, AccountDataView>::empty();
    let before = visible_account(empty, source, from);
    if calls.len() > 0 {
        let earlier = calls.drop_last();
        assert forall|i: int| 0 <= i < earlier.len() implies add_uri_rejection(
            #[trigger] earlier[i],
        ) is None by {
            assert(earlier[i] == calls[i]);
        }
        lemma_add_uri_ledger_append_only(source, from, earlier, token, nonce);
        lemma_add_uri_commit(ledger_after_calls(source, from, earlier), from, calls.last(), from);
    }
    lemma_add_uri_append_only(before, calls, token, nonce);
}

} // verus!
