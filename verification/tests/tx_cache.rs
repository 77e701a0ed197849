use dharitri_sdk::types::{BigUint, VMAddress};
use dharitri_sdk::vm::tx_mock::{BlockchainUpdate, TxCache};
use dharitri_sdk::vm::world_mock::{AccountData, AccountMap, BlockchainState, DcdtInstance};

fn address(tag: u8) -> VMAddress {
    VMAddress::new([tag; 32])
}

fn account_with_nonce(tag: u8, nonce: u64) -> AccountData {
    let mut account = AccountData::new_empty(address(tag));
    account.nonce = nonce;
    account
}

#[test]
fn addresses_compare_by_their_bytes() {
    assert!(address(1).same_as(&address(1)));
    assert!(!address(1).same_as(&address(2)));
    let mut bytes = [0u8; 32];
    assert!(VMAddress::zero().same_as(&VMAddress::new(bytes)));
    bytes[31] = 1;
    assert!(!VMAddress::zero().same_as(&VMAddress::new(bytes)));
}

#[test]
fn reads_fall_through_to_the_ledger() {
    let mut state = BlockchainState::new();
    state.add_account(account_with_nonce(1, 11));
    let cache = TxCache::new(&state);
    assert_eq!(cache.with_account(&address(1)).nonce, 11);
}

#[test]
fn an_unknown_address_reads_as_a_fresh_account() {
    let state = BlockchainState::new();
    let cache = TxCache::new(&state);
    let account = cache.with_account(&address(5));
    assert_eq!(account.address.bytes, [5u8; 32]);
    assert_eq!(account.nonce, 0);
    assert!(account.moa_balance.is_zero());
    assert!(account.dcdt.get_instance(b"T", 0).is_none());
}

#[test]
fn reading_changes_nothing() {
    let mut state = BlockchainState::new();
    state.add_account(account_with_nonce(1, 11));
    let cache = TxCache::new(&state);
    let _ = cache.with_account(&address(1));
    let _ = cache.with_account(&address(2));
    assert!(cache.into_blockchain_updates().is_empty());
}

#[test]
fn writes_are_seen_by_later_reads() {
    let mut state = BlockchainState::new();
    state.add_account(account_with_nonce(1, 11));
    let mut cache = TxCache::new(&state);
    cache.with_account_mut(&address(1), |mut account| {
        account.nonce += 1;
        account
    });
    assert_eq!(cache.with_account(&address(1)).nonce, 12);
    cache.with_account_mut(&address(1), |mut account| {
        account.nonce += 1;
        account.moa_balance = BigUint::from_u64(3);
        account
    });
    let account = cache.with_account(&address(1));
    assert_eq!(account.nonce, 13);
    assert_eq!(account.moa_balance.to_bytes_be(), vec![3u8]);
}

#[test]
fn writes_do_not_reach_the_ledger() {
    let mut state = BlockchainState::new();
    state.add_account(account_with_nonce(1, 11));
    let mut cache = TxCache::new(&state);
    cache.with_account_mut(&address(1), |mut account| {
        account.nonce = 99;
        account
    });
    let update = cache.into_blockchain_updates();
    assert_eq!(update.accounts.get(&address(1)).unwrap().nonce, 99);
    assert_eq!(state.account(&address(1)).unwrap().nonce, 11);
}

#[test]
fn a_write_creates_the_account_where_there_is_none() {
    let state = BlockchainState::new();
    let mut cache = TxCache::new(&state);
    cache.with_account_mut(&address(7), |mut account| {
        account.dcdt.add_uris(b"T", 1, vec![b"u".to_vec()]);
        account
    });
    let update = cache.into_blockchain_updates();
    let account = update.accounts.get(&address(7)).unwrap();
    assert_eq!(account.dcdt.get_instance(b"T", 1).unwrap().uri, vec![b"u".to_vec()]);
}

#[test]
fn the_update_holds_the_changed_accounts_only() {
    let mut state = BlockchainState::new();
    state.add_account(account_with_nonce(1, 1));
    state.add_account(account_with_nonce(2, 2));
    let mut cache = TxCache::new(&state);
    cache.insert_account(account_with_nonce(2, 20));
    cache.insert_account(account_with_nonce(3, 30));
    let update = cache.into_blockchain_updates();
    assert!(!update.is_empty());
    assert!(update.accounts.get(&address(1)).is_none());
    assert_eq!(update.accounts.get(&address(2)).unwrap().nonce, 20);
    assert_eq!(update.accounts.get(&address(3)).unwrap().nonce, 30);
}

#[test]
fn committing_replaces_the_changed_accounts_and_keeps_the_others() {
    let mut state = BlockchainState::new();
    state.add_account(account_with_nonce(1, 1));
    state.add_account(account_with_nonce(2, 2));
    let mut accounts = AccountMap::new();
    accounts.insert(account_with_nonce(2, 20));
    accounts.insert(account_with_nonce(3, 30));
    let update = BlockchainUpdate { accounts };
    update.apply(&mut state);
    assert_eq!(state.account(&address(1)).unwrap().nonce, 1);
    assert_eq!(state.account(&address(2)).unwrap().nonce, 20);
    assert_eq!(state.account(&address(3)).unwrap().nonce, 30);
    assert!(state.account(&address(4)).is_none());
}

#[test]
fn committing_the_empty_update_changes_nothing() {
    let mut state = BlockchainState::new();
    state.add_account(account_with_nonce(1, 1));
    assert!(BlockchainUpdate::empty().is_empty());
    BlockchainUpdate::empty().apply(&mut state);
    assert_eq!(state.account(&address(1)).unwrap().nonce, 1);
    assert!(state.account(&address(2)).is_none());
}

#[test]
fn a_second_holding_under_one_key_replaces_the_first() {
    let mut account = AccountData::new_empty(address(1));
    let mut first = DcdtInstance::new(b"T".to_vec(), 1);
    first.royalties = 1;
    let mut second = DcdtInstance::new(b"T".to_vec(), 1);
    second.royalties = 2;
    let mut third = DcdtInstance::new(b"T".to_vec(), 2);
    third.royalties = 3;
    account.dcdt.insert_instance(first);
    account.dcdt.insert_instance(second);
    account.dcdt.insert_instance(third);
    assert_eq!(account.dcdt.get_instance(b"T", 1).unwrap().royalties, 2);
    assert_eq!(account.dcdt.get_instance(b"T", 2).unwrap().royalties, 3);
    assert!(account.dcdt.get_instance(b"T", 3).is_none());
    assert!(account.dcdt.get_instance(b"t", 1).is_none());
}

#[test]
fn copies_hold_what_the_original_holds() {
    let mut account = account_with_nonce(1, 5);
    account.moa_balance = BigUint::from_u64(77);
    account.dcdt.add_uris(b"T", 1, vec![b"u".to_vec(), b"v".to_vec()]);
    let copy = account.duplicate();
    assert_eq!(copy.address.bytes, account.address.bytes);
    assert_eq!(copy.nonce, 5);
    assert_eq!(copy.moa_balance.to_bytes_be(), vec![77u8]);
    assert_eq!(
        copy.dcdt.get_instance(b"T", 1).unwrap().uri,
        vec![b"u".to_vec(), b"v".to_vec()]
    );
}
