use dharitri_sdk::contracts::fwd_call_sync::split_fees;
use dharitri_sdk::contracts::{ForwarderError, ForwarderSyncCallModule, VaultProxy};
use dharitri_sdk::sc::tx::{Tx, TxPayment, TxScEnv};
use dharitri_sdk::sc::types::{BigUint, DcdtTokenPayment, MoaOrDcdtTokenIdentifier, VMAddress};
use dharitri_sdk::sc::{CallValueError, CallValueWrapper};

fn address(tag: u8) -> VMAddress {
    VMAddress::new([tag; 32])
}

fn payment(token: &[u8], nonce: u64, amount: u64) -> DcdtTokenPayment {
    DcdtTokenPayment::new(token.to_vec(), nonce, BigUint::from_u64(amount))
}

fn module(gas_left: u64, moa: u64, transfers: Vec<DcdtTokenPayment>) -> ForwarderSyncCallModule {
    ForwarderSyncCallModule::new(
        TxScEnv { sc_address: address(0xaa) },
        gas_left,
        CallValueWrapper::new(BigUint::from_u64(moa), transfers),
    )
}

fn number(value: &BigUint) -> u64 {
    dharitri_sdk::types::top_decode_u64(&value.to_bytes_be()).unwrap()
}

#[test]
fn big_numbers_add_subtract_multiply_and_divide() {
    let a = BigUint::from_u64(u64::MAX);
    let b = BigUint::from_u64(1);
    assert_eq!(a.plus(&b).to_bytes_be(), vec![1u8, 0, 0, 0, 0, 0, 0, 0, 0]);
    assert_eq!(number(&a.plus(&b).checked_minus(&b).unwrap()), u64::MAX);
    assert!(b.checked_minus(&a).is_none());
    assert!(a.checked_minus(&a).unwrap().is_zero());
    assert_eq!(number(&BigUint::from_u64(1000).checked_minus(&BigUint::from_u64(1)).unwrap()), 999);
    assert_eq!(number(&BigUint::from_u64(256).checked_minus(&BigUint::from_u64(1)).unwrap()), 255);

    assert_eq!(number(&BigUint::from_u64(123_456).times(&BigUint::from_u64(789))), 97_406_784);
    assert!(BigUint::from_u64(5).times(&BigUint::zero()).is_zero());
    assert!(BigUint::zero().times(&BigUint::from_u64(5)).is_zero());
    let square = a.times(&a);
    assert_eq!(
        square.to_bytes_be(),
        vec![0xff, 0xff, 0xff, 0xff, 0xff, 0xff, 0xff, 0xfe, 0, 0, 0, 0, 0, 0, 0, 1]
    );

    let (quotient, remainder) = BigUint::from_u64(1_000_003).div_rem_u32(10_000).unwrap();
    assert_eq!(number(&quotient), 100);
    assert_eq!(remainder, 3);
    let (quotient, remainder) = square.div_rem_u32(u32::MAX).unwrap();
    assert_eq!(remainder, 0);
    assert_eq!(
        quotient.to_bytes_be(),
        vec![1, 0, 0, 0, 0, 0xff, 0xff, 0xff, 0xfe, 0xff, 0xff, 0xff, 0xff]
    );
    assert!(BigUint::from_u64(7).div_rem_u32(0).is_none());
    let (quotient, remainder) = BigUint::zero().div_rem_u32(9).unwrap();
    assert!(quotient.is_zero());
    assert_eq!(remainder, 0);
}

#[test]
fn fees_are_a_share_of_ten_thousand_rounded_down() {
    let (fees, rest) = split_fees(&BigUint::from_u64(1000), &BigUint::from_u64(250)).unwrap();
    assert_eq!(number(&fees), 25);
    assert_eq!(number(&rest), 975);

    let (fees, rest) = split_fees(&BigUint::from_u64(999), &BigUint::from_u64(1)).unwrap();
    assert_eq!(number(&fees), 0);
    assert_eq!(number(&rest), 999);

    let (fees, rest) = split_fees(&BigUint::from_u64(7), &BigUint::from_u64(10_000)).unwrap();
    assert_eq!(number(&fees), 7);
    assert!(rest.is_zero());

    assert!(split_fees(&BigUint::from_u64(7), &BigUint::from_u64(20_000)).is_none());
    let (fees, rest) = split_fees(&BigUint::zero(), &BigUint::from_u64(20_000)).unwrap();
    assert!(fees.is_zero());
    assert!(rest.is_zero());
}

#[test]
fn echo_goes_out_with_half_of_the_gas() {
    let to = address(2);
    let tx = module(1001, 0, vec![]).echo_arguments_sync(&to, vec![b"a".to_vec(), b"b".to_vec()]);
    assert_eq!(tx.to.bytes, [2; 32]);
    assert_eq!(tx.gas.0, 500);
    assert_eq!(tx.env.sc_address.bytes, [0xaa; 32]);
    assert!(tx.payment.is_no_payment(&tx.env));
    assert_eq!(tx.to_call_data_string(), b"echo_arguments@61@62".to_vec());
}

#[test]
fn echo_twice_goes_out_with_a_third_of_the_gas_each() {
    let to = address(2);
    let (first, second) = module(1000, 0, vec![]).echo_arguments_sync_twice(&to, vec![vec![1, 2]]);
    assert_eq!(first.gas.0, 333);
    assert_eq!(second.gas.0, 333);
    assert_eq!(first.to_call_data_string(), b"echo_arguments@0102".to_vec());
    assert_eq!(second.to_call_data_string(), b"echo_arguments@0102".to_vec());
}

#[test]
fn funds_are_handed_on_as_they_came() {
    let to = address(2);
    let tx = module(10, 55, vec![]).forward_sync_accept_funds(&to).ok().unwrap();
    assert_eq!(tx.gas.0, 5);
    assert!(tx.payment.token_identifier.is_moa());
    assert_eq!(number(&tx.payment.amount), 55);
    assert_eq!(tx.data.function_name, b"accept_funds_echo_payment".to_vec());

    let pays_nft = module(10, 0, vec![payment(b"NFT", 3, 1)]);
    let tx = pays_nft.forward_sync_accept_funds(&to).ok().unwrap();
    assert!(matches!(
        &tx.payment.token_identifier,
        MoaOrDcdtTokenIdentifier::Dcdt(id) if id == b"NFT"
    ));
    assert_eq!(tx.payment.token_nonce, 3);

    let two = module(10, 0, vec![payment(b"A", 0, 1), payment(b"B", 0, 1)]);
    assert_eq!(
        two.forward_sync_accept_funds(&to).err(),
        Some(CallValueError::IncorrectNumDcdtTransfers)
    );
    assert_eq!(
        two.forward_sync_accept_funds_then_read(&to).err(),
        Some(CallValueError::IncorrectNumDcdtTransfers)
    );
}

#[test]
fn funds_are_sent_to_get_them_back() {
    let to = address(2);
    let tx = module(9, 70, vec![]).forward_sync_accept_funds_rh_moa(&to);
    assert_eq!(tx.gas.0, 4);
    assert_eq!(number(&tx.payment.0), 70);
    assert_eq!(tx.data.function_name, b"retrieve_funds_moa_or_single_dcdt".to_vec());

    let one = module(9, 0, vec![payment(b"SFT", 2, 6)]);
    let tx = one.forward_sync_accept_funds_rh_single_dcdt(&to).ok().unwrap();
    assert_eq!(tx.payment.token_identifier, b"SFT".to_vec());
    assert_eq!(tx.payment.token_nonce, 2);
    assert_eq!(number(&tx.payment.amount), 6);
    assert_eq!(tx.data.function_name, b"retrieve_funds_moa_or_single_dcdt".to_vec());
    assert_eq!(
        module(9, 1, vec![]).forward_sync_accept_funds_rh_single_dcdt(&to).err(),
        Some(CallValueError::IncorrectNumDcdtTransfers)
    );

    let two = module(9, 0, vec![payment(b"A", 0, 1), payment(b"B", 1, 2)]);
    let tx = two.forward_sync_accept_funds_rh_multi_dcdt(&to);
    assert_eq!(tx.payment.len(), 2);
    assert_eq!(tx.payment[1].token_identifier, b"B".to_vec());
    assert_eq!(tx.data.function_name, b"retrieve_funds_multi_dcdt".to_vec());
}

#[test]
fn fees_are_kept_and_the_rest_is_handed_on() {
    let to = address(2);
    let pays_moa = module(9, 2000, vec![]);
    let tx = pays_moa
        .forward_sync_accept_funds_with_fees(&to, &BigUint::from_u64(1000))
        .ok()
        .unwrap();
    assert!(tx.payment.token_identifier.is_moa());
    assert_eq!(tx.payment.token_nonce, 0);
    assert_eq!(number(&tx.payment.amount), 1800);
    assert_eq!(tx.data.function_name, b"accept_funds".to_vec());

    let pays_token = module(9, 0, vec![payment(b"FT", 0, 10_001)]);
    let tx = pays_token
        .forward_sync_accept_funds_with_fees(&to, &BigUint::from_u64(1))
        .ok()
        .unwrap();
    assert!(matches!(
        &tx.payment.token_identifier,
        MoaOrDcdtTokenIdentifier::Dcdt(id) if id == b"FT"
    ));
    assert_eq!(number(&tx.payment.amount), 10_000);

    let rounded = pays_moa
        .forward_sync_accept_funds_with_fees(&to, &BigUint::from_u64(10_001))
        .ok()
        .unwrap();
    assert!(rounded.payment.amount.is_zero());
    assert_eq!(
        pays_moa.forward_sync_accept_funds_with_fees(&to, &BigUint::from_u64(10_010)).err(),
        Some(ForwarderError::FeesExceedPayment)
    );
    assert_eq!(
        module(9, 0, vec![payment(b"NFT", 1, 1)])
            .forward_sync_accept_funds_with_fees(&to, &BigUint::zero())
            .err(),
        Some(ForwarderError::CallValue(CallValueError::FungibleTokenExpected))
    );
    assert_eq!(
        module(9, 0, vec![payment(b"A", 0, 1), payment(b"B", 0, 1)])
            .forward_sync_accept_funds_with_fees(&to, &BigUint::zero())
            .err(),
        Some(ForwarderError::CallValue(CallValueError::IncorrectNumDcdtTransfers))
    );
}

#[test]
fn funds_are_handed_on_and_then_counted() {
    let to = address(2);
    let (accept, read) =
        module(9, 3, vec![]).forward_sync_accept_funds_then_read(&to).ok().unwrap();
    assert_eq!(number(&accept.payment.amount), 3);
    assert_eq!(accept.to_call_data_string(), b"accept_funds".to_vec());
    assert_eq!(read.to_call_data_string(), b"call_counts@6163636570745f66756e6473".to_vec());
    assert_eq!(read.to.bytes, [2; 32]);
}

#[test]
fn funds_are_asked_back() {
    let to = address(2);
    let m = module(9, 0, vec![payment(b"A", 0, 1)]);
    let tx = m.forward_sync_retrieve_funds(
        &to,
        MoaOrDcdtTokenIdentifier::dcdt(b"TOK-123456".to_vec()),
        5,
        BigUint::from_u64(258),
    );
    assert_eq!(
        tx.data.arg_buffer,
        vec![b"TOK-123456".to_vec(), vec![5u8], vec![1u8, 2]]
    );
    assert_eq!(tx.data.function_name, b"retrieve_funds".to_vec());

    let moa = MoaOrDcdtTokenIdentifier::moa();
    let tx = m.forward_sync_retrieve_funds(&to, moa, 0, BigUint::zero());
    assert_eq!(tx.data.arg_buffer, vec![b"MOA".to_vec(), vec![], vec![]]);

    let tx = m.forward_sync_retrieve_funds_with_accept_func(
        &to,
        b"TOK-123456".to_vec(),
        BigUint::from_u64(7),
    );
    assert_eq!(tx.payment.len(), 1);
    assert_eq!(tx.payment[0].token_identifier, b"A".to_vec());
    assert_eq!(tx.data.function_name, b"retrieve_funds_with_transfer_exec".to_vec());
    assert_eq!(
        tx.data.arg_buffer,
        vec![b"TOK-123456".to_vec(), vec![7u8], b"accept_funds_func".to_vec()]
    );
    m.accept_funds_func();
}

#[test]
fn several_tokens_are_paid_in_the_order_given() {
    let to = address(2);
    let tx = module(9, 0, vec![]).forward_sync_accept_funds_multi_transfer(
        &to,
        vec![
            (b"A".to_vec(), 0, BigUint::from_u64(1)),
            (b"B".to_vec(), 2, BigUint::from_u64(3)),
        ],
    );
    assert_eq!(tx.payment.len(), 2);
    assert_eq!(tx.payment[0].token_identifier, b"A".to_vec());
    assert_eq!(tx.payment[1].token_identifier, b"B".to_vec());
    assert_eq!(tx.payment[1].token_nonce, 2);
    assert_eq!(number(&tx.payment[1].amount), 3);
    assert_eq!(tx.data.function_name, b"accept_funds".to_vec());
    assert!(tx.data.arg_buffer.is_empty());
}

#[test]
fn the_proxy_wraps_the_transaction_it_is_given() {
    let tx = Tx::new_with_env(TxScEnv { sc_address: address(1) }).to(address(2)).gas(3u64);
    let call = tx
        .typed(VaultProxy)
        .retrieve_funds_with_transfer_exec(b"T".to_vec(), BigUint::from_u64(1), None);
    assert_eq!(call.to.bytes, [2; 32]);
    assert_eq!(call.gas.0, 3);
    assert_eq!(call.data.arg_buffer, vec![b"T".to_vec(), vec![1u8]]);
}
