use dharitri_sdk::chain_core::ReturnCode;
use dharitri_sdk::types::{BigUint, VMAddress};
use dharitri_sdk::vm::tx_execution::{
    BlockchainVMRef, BuiltinFunction, BuiltinFunctionContainer, DCDTNftAddUri,
};
use dharitri_sdk::vm::tx_mock::{BlockchainUpdate, TxCache, TxInput, TxResult};
use dharitri_sdk::vm::world_mock::{AccountData, BlockchainState, DcdtInstance};

fn address(tag: u8) -> VMAddress {
    VMAddress::new([tag; 32])
}

fn add_uri_input(from: VMAddress, args: Vec<Vec<u8>>) -> TxInput {
    let mut input = TxInput::new(from, from, "DCDTNFTAddURI".to_string());
    input.args = args;
    input
}

fn run(state: &BlockchainState, input: TxInput) -> (TxResult, BlockchainUpdate) {
    let cache = TxCache::new(state);
    let vm = BlockchainVMRef::new();
    DCDTNftAddUri.execute(input, cache, &vm, || {})
}

fn uris_of(update: &BlockchainUpdate, owner: &VMAddress, token: &[u8], nonce: u64) -> Vec<Vec<u8>> {
    let account = update.accounts.get(owner).expect("account in update");
    account.dcdt.get_instance(token, nonce).expect("holding").uri.clone()
}

#[test]
fn the_function_is_called_by_its_ledger_name() {
    assert_eq!(DCDTNftAddUri.name(), "DCDTNFTAddURI");
}

#[test]
fn uris_are_added_to_a_new_holding() {
    let state = BlockchainState::new();
    let from = address(1);
    let input = add_uri_input(
        from,
        vec![
            b"TOKEN-abcdef".to_vec(),
            vec![5],
            b"https://a".to_vec(),
            b"https://b".to_vec(),
        ],
    );
    let (result, update) = run(&state, input);

    assert_eq!(result.result_status, ReturnCode::Success);
    assert!(result.is_success());
    assert_eq!(result.result_message, "");
    assert!(result.result_values.is_empty());
    assert_eq!(result.result_logs.len(), 1);
    let log = &result.result_logs[0];
    assert_eq!(log.address.bytes, from.bytes);
    assert_eq!(log.endpoint, "DCDTNFTAddURI");
    assert_eq!(
        log.topics,
        vec![
            b"TOKEN-abcdef".to_vec(),
            vec![5u8],
            Vec::<u8>::new(),
            b"https://a".to_vec(),
            b"https://b".to_vec(),
        ]
    );
    assert!(log.data.is_empty());

    assert!(!update.is_empty());
    assert_eq!(
        uris_of(&update, &from, b"TOKEN-abcdef", 5),
        vec![b"https://a".to_vec(), b"https://b".to_vec()]
    );
    let account = update.accounts.get(&from).unwrap();
    assert_eq!(account.address.bytes, from.bytes);
    let holding = account.dcdt.get_instance(b"TOKEN-abcdef", 5).unwrap();
    assert!(holding.balance.is_zero());
    assert!(holding.attributes.is_empty());
    assert!(account.dcdt.get_instance(b"TOKEN-abcdef", 6).is_none());
}

#[test]
fn two_arguments_are_too_few() {
    let state = BlockchainState::new();
    let input = add_uri_input(address(1), vec![b"TOKEN-abcdef".to_vec(), vec![5]]);
    let (result, update) = run(&state, input);

    assert_eq!(result.result_status, ReturnCode::ExecutionFailed);
    assert!(!result.is_success());
    assert_eq!(result.result_message, "DCDTNFTAddURI expects at least 3 arguments");
    assert!(result.result_logs.is_empty());
    assert!(update.is_empty());
}

#[test]
fn no_argument_is_too_few() {
    let state = BlockchainState::new();
    let (result, update) = run(&state, add_uri_input(address(1), vec![]));
    assert_eq!(result.result_status, ReturnCode::ExecutionFailed);
    assert_eq!(result.result_message, "DCDTNFTAddURI expects at least 3 arguments");
    assert!(update.is_empty());
}

#[test]
fn a_nonce_of_nine_bytes_is_rejected() {
    let state = BlockchainState::new();
    let input = add_uri_input(
        address(1),
        vec![b"TOKEN-abcdef".to_vec(), vec![1, 0, 0, 0, 0, 0, 0, 0, 0], b"u".to_vec()],
    );
    let (result, update) = run(&state, input);
    assert_eq!(result.result_status, ReturnCode::ExecutionFailed);
    assert_eq!(result.result_message, "DCDTNFTAddURI nonce argument exceeds 8 bytes");
    assert!(result.result_logs.is_empty());
    assert!(update.is_empty());
}

#[test]
fn a_failed_call_drops_earlier_changes_of_the_cache() {
    let state = BlockchainState::new();
    let mut cache = TxCache::new(&state);
    cache.insert_account(AccountData::new_empty(address(9)));
    let vm = BlockchainVMRef::new();
    let input = add_uri_input(address(1), vec![b"T".to_vec()]);
    let (result, update) = DCDTNftAddUri.execute(input, cache, &vm, || {});
    assert!(!result.is_success());
    assert!(update.is_empty());
}

#[test]
fn a_call_that_went_through_keeps_earlier_changes_of_the_cache() {
    let state = BlockchainState::new();
    let mut cache = TxCache::new(&state);
    cache.insert_account(AccountData::new_empty(address(9)));
    let vm = BlockchainVMRef::new();
    let input = add_uri_input(address(1), vec![b"T".to_vec(), vec![], b"u".to_vec()]);
    let (result, update) = DCDTNftAddUri.execute(input, cache, &vm, || {});
    assert!(result.is_success());
    assert!(update.accounts.get(&address(9)).is_some());
    assert_eq!(uris_of(&update, &address(1), b"T", 0), vec![b"u".to_vec()]);
}

#[test]
fn the_nonce_topic_is_written_in_minimal_form() {
    let state = BlockchainState::new();
    let input = add_uri_input(address(1), vec![b"T".to_vec(), vec![0, 0, 1, 0], b"u".to_vec()]);
    let (result, update) = run(&state, input);
    assert!(result.is_success());
    assert_eq!(result.result_logs[0].topics[1], vec![1u8, 0]);
    assert_eq!(uris_of(&update, &address(1), b"T", 256), vec![b"u".to_vec()]);
}

#[test]
fn the_empty_nonce_is_the_fungible_instance() {
    let state = BlockchainState::new();
    let input = add_uri_input(address(1), vec![b"T".to_vec(), vec![], b"u".to_vec()]);
    let (result, update) = run(&state, input);
    assert!(result.is_success());
    assert_eq!(
        result.result_logs[0].topics,
        vec![b"T".to_vec(), Vec::<u8>::new(), Vec::<u8>::new(), b"u".to_vec()]
    );
    assert_eq!(uris_of(&update, &address(1), b"T", 0), vec![b"u".to_vec()]);
}

#[test]
fn uris_are_appended_behind_those_of_an_existing_holding() {
    let from = address(3);
    let mut holding = DcdtInstance::new(b"NFT-123456".to_vec(), 7);
    holding.uri = vec![b"first".to_vec()];
    holding.balance = BigUint::from_u64(1);
    holding.attributes = b"attrs".to_vec();
    holding.royalties = 250;
    holding.creator = Some(address(8));
    holding.hash = Some(b"hash".to_vec());
    let mut other = DcdtInstance::new(b"NFT-123456".to_vec(), 8);
    other.uri = vec![b"other".to_vec()];
    let mut account = AccountData::new_empty(from);
    account.nonce = 4;
    account.moa_balance = BigUint::from_u64(1000);
    account.dcdt.insert_instance(holding);
    account.dcdt.insert_instance(other);
    let mut state = BlockchainState::new();
    state.add_account(account);

    let input = add_uri_input(
        from,
        vec![b"NFT-123456".to_vec(), vec![7], b"second".to_vec(), b"first".to_vec()],
    );
    let (result, update) = run(&state, input);
    assert!(result.is_success());

    assert_eq!(
        uris_of(&update, &from, b"NFT-123456", 7),
        vec![b"first".to_vec(), b"second".to_vec(), b"first".to_vec()]
    );
    assert_eq!(uris_of(&update, &from, b"NFT-123456", 8), vec![b"other".to_vec()]);
    let changed = update.accounts.get(&from).unwrap();
    assert_eq!(changed.nonce, 4);
    assert_eq!(changed.moa_balance.to_bytes_be(), BigUint::from_u64(1000).to_bytes_be());
    let kept = changed.dcdt.get_instance(b"NFT-123456", 7).unwrap();
    assert_eq!(kept.balance.to_bytes_be(), vec![1u8]);
    assert_eq!(kept.attributes, b"attrs".to_vec());
    assert_eq!(kept.royalties, 250);
    assert_eq!(kept.creator.unwrap().bytes, address(8).bytes);
    assert_eq!(kept.hash, Some(b"hash".to_vec()));

    // The ledger itself is untouched until the update is committed.
    let stored = state.account(&from).unwrap();
    assert_eq!(stored.dcdt.get_instance(b"NFT-123456", 7).unwrap().uri, vec![b"first".to_vec()]);
}

#[test]
fn calls_in_a_row_append_in_call_order() {
    let from = address(2);
    let mut state = BlockchainState::new();
    let batches: Vec<Vec<Vec<u8>>> = vec![
        vec![b"a".to_vec(), b"b".to_vec()],
        vec![b"c".to_vec()],
        vec![b"a".to_vec(), b"d".to_vec(), b"e".to_vec()],
    ];
    let mut expected: Vec<Vec<u8>> = Vec::new();
    for batch in batches {
        let mut args = vec![b"TOKEN-abcdef".to_vec(), vec![5]];
        args.extend(batch.iter().cloned());
        let (result, update) = run(&state, add_uri_input(from, args));
        assert!(result.is_success());
        expected.extend(batch);
        assert_eq!(uris_of(&update, &from, b"TOKEN-abcdef", 5), expected);
        update.apply(&mut state);
    }
    let stored = state.account(&from).unwrap();
    assert_eq!(
        stored.dcdt.get_instance(b"TOKEN-abcdef", 5).unwrap().uri,
        vec![
            b"a".to_vec(),
            b"b".to_vec(),
            b"c".to_vec(),
            b"a".to_vec(),
            b"d".to_vec(),
            b"e".to_vec(),
        ]
    );
}

#[test]
fn calls_for_another_key_leave_the_holding_alone() {
    let from = address(2);
    let mut state = BlockchainState::new();
    let calls: Vec<(Vec<u8>, u8, Vec<u8>)> = vec![
        (b"T".to_vec(), 1, b"x".to_vec()),
        (b"T".to_vec(), 2, b"y".to_vec()),
        (b"U".to_vec(), 1, b"z".to_vec()),
        (b"T".to_vec(), 1, b"w".to_vec()),
    ];
    for (token, nonce, uri) in calls {
        let (result, update) = run(&state, add_uri_input(from, vec![token, vec![nonce], uri]));
        assert!(result.is_success());
        update.apply(&mut state);
    }
    let stored = state.account(&from).unwrap();
    assert_eq!(stored.dcdt.get_instance(b"T", 1).unwrap().uri, vec![b"x".to_vec(), b"w".to_vec()]);
    assert_eq!(stored.dcdt.get_instance(b"T", 2).unwrap().uri, vec![b"y".to_vec()]);
    assert_eq!(stored.dcdt.get_instance(b"U", 1).unwrap().uri, vec![b"z".to_vec()]);
}

#[test]
fn a_failure_never_carries_an_update_and_a_success_always_does() {
    let state = BlockchainState::new();
    let inputs: Vec<Vec<Vec<u8>>> = vec![
        vec![],
        vec![b"T".to_vec()],
        vec![b"T".to_vec(), vec![1]],
        vec![b"T".to_vec(), vec![1], b"u".to_vec()],
        vec![b"T".to_vec(), vec![0; 9], b"u".to_vec()],
        vec![b"T".to_vec(), vec![0xff; 8], b"u".to_vec(), b"v".to_vec()],
        vec![Vec::new(), Vec::new(), Vec::new()],
    ];
    for args in inputs {
        let (result, update) = run(&state, add_uri_input(address(1), args));
        assert_eq!(result.is_success(), !update.is_empty());
        assert_eq!(result.is_success(), result.result_logs.len() == 1);
    }
}

#[test]
fn only_the_sender_is_changed() {
    let mut state = BlockchainState::new();
    state.add_account(AccountData::new_empty(address(4)));
    let input = add_uri_input(address(1), vec![b"T".to_vec(), vec![1], b"u".to_vec()]);
    let (_, update) = run(&state, input);
    assert!(update.accounts.get(&address(1)).is_some());
    assert!(update.accounts.get(&address(4)).is_none());
}

#[test]
fn the_registry_knows_the_function_by_name() {
    let registry = BuiltinFunctionContainer;
    let found = registry.lookup("DCDTNFTAddURI").expect("registered");
    assert_eq!(found.name(), "DCDTNFTAddURI");
    assert!(registry.lookup("DCDTNFTAddUri").is_none());
    assert!(registry.lookup("").is_none());
    assert!(registry.lookup("transfer").is_none());
}

#[test]
fn a_registered_function_runs_as_the_function_itself() {
    let state = BlockchainState::new();
    let vm = BlockchainVMRef::new();
    let function = vm.builtin_functions.lookup("DCDTNFTAddURI").unwrap();
    let input = add_uri_input(address(1), vec![b"T".to_vec(), vec![2], b"u".to_vec()]);
    let (result, update) = function.execute(input, TxCache::new(&state), &vm, || {});
    assert!(result.is_success());
    assert_eq!(uris_of(&update, &address(1), b"T", 2), vec![b"u".to_vec()]);
}

#[test]
fn the_default_result_is_an_empty_success() {
    let result = TxResult::default();
    assert_eq!(result.result_status, ReturnCode::Success);
    assert_eq!(result.result_message, "");
    assert!(result.result_values.is_empty());
    assert!(result.result_logs.is_empty());
    assert_eq!(result.gas_used, 0);

    let failed = TxResult::from_vm_error("no");
    assert_eq!(failed.result_status, ReturnCode::ExecutionFailed);
    assert_eq!(failed.result_message, "no");
    assert!(failed.result_logs.is_empty());
    assert_eq!(failed.gas_used, 0);
}

#[test]
fn return_codes_have_the_numbers_of_the_ledger() {
    assert_eq!(ReturnCode::Success.as_u64(), 0);
    assert_eq!(ReturnCode::UserError.as_u64(), 4);
    assert_eq!(ReturnCode::ExecutionFailed.as_u64(), 10);
    assert_eq!(ReturnCode::SimulateFailed.as_u64(), 12);
    assert_eq!(ReturnCode::FunctionNotFound.as_u64(), 1);
    assert_eq!(ReturnCode::OutOfGas.as_u64(), 5);
    assert!(ReturnCode::Success.is_success());
    assert!(!ReturnCode::OutOfFunds.is_success());
}
