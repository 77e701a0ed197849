use dharitri_sdk::sc::types::{
    BigUint, DcdtTokenPayment, MoaOrDcdtTokenIdentifier, MoaOrMultiDcdtPayment,
};
use dharitri_sdk::sc::{CallValueError, CallValueWrapper};

fn payment(token: &[u8], nonce: u64, amount: u64) -> DcdtTokenPayment {
    DcdtTokenPayment::new(token.to_vec(), nonce, BigUint::from_u64(amount))
}

fn call_value(moa: u64, transfers: Vec<DcdtTokenPayment>) -> CallValueWrapper {
    CallValueWrapper::new(BigUint::from_u64(moa), transfers)
}

fn triple(p: &DcdtTokenPayment) -> (Vec<u8>, u64, Vec<u8>) {
    (p.token_identifier.clone(), p.token_nonce, p.amount.to_bytes_be())
}

#[test]
fn moa_value_is_what_the_call_brought() {
    let value = call_value(1000, vec![]);
    assert_eq!(value.moa_value().to_bytes_be(), BigUint::from_u64(1000).to_bytes_be());
    assert!(value.all_dcdt_transfers().is_empty());
}

#[test]
fn moa_decimal_has_eighteen_decimals() {
    let decimal = call_value(1_500_000, vec![]).moa_decimal();
    assert_eq!(decimal.num_decimals, 18);
    assert_eq!(decimal.data.to_bytes_be(), BigUint::from_u64(1_500_000).to_bytes_be());
}

#[test]
fn multi_dcdt_gives_the_transfers_in_order() {
    let value = call_value(0, vec![payment(b"A", 0, 1), payment(b"B", 2, 3), payment(b"C", 4, 5)]);
    let payments = value.multi_dcdt::<3>().unwrap();
    assert_eq!(triple(&payments[0]), (b"A".to_vec(), 0, vec![1]));
    assert_eq!(triple(&payments[1]), (b"B".to_vec(), 2, vec![3]));
    assert_eq!(triple(&payments[2]), (b"C".to_vec(), 4, vec![5]));
}

#[test]
fn multi_dcdt_asks_for_the_exact_number() {
    let value = call_value(0, vec![payment(b"A", 0, 1), payment(b"B", 2, 3)]);
    assert_eq!(value.multi_dcdt::<1>().err(), Some(CallValueError::IncorrectNumDcdtTransfers));
    assert_eq!(value.multi_dcdt::<3>().err(), Some(CallValueError::IncorrectNumDcdtTransfers));
    assert_eq!(value.multi_dcdt::<0>().err(), Some(CallValueError::IncorrectNumDcdtTransfers));
    assert!(value.multi_dcdt::<2>().is_ok());
    assert!(call_value(5, vec![]).multi_dcdt::<0>().is_ok());
}

#[test]
fn single_dcdt_takes_exactly_one_transfer() {
    let one = call_value(0, vec![payment(b"NFT", 9, 1)]);
    assert_eq!(triple(&one.single_dcdt().unwrap()), (b"NFT".to_vec(), 9, vec![1]));
    assert_eq!(
        call_value(3, vec![]).single_dcdt().err(),
        Some(CallValueError::IncorrectNumDcdtTransfers)
    );
    assert_eq!(
        call_value(0, vec![payment(b"A", 0, 1), payment(b"B", 0, 1)]).single_dcdt().err(),
        Some(CallValueError::IncorrectNumDcdtTransfers)
    );
}

#[test]
fn single_fungible_dcdt_takes_nonce_zero_only() {
    let fungible = call_value(0, vec![payment(b"FT", 0, 500)]);
    let (token, amount) = fungible.single_fungible_dcdt().unwrap();
    assert_eq!(token, b"FT".to_vec());
    assert_eq!(amount.to_bytes_be(), BigUint::from_u64(500).to_bytes_be());

    let nft = call_value(0, vec![payment(b"NFT", 1, 1)]);
    assert_eq!(nft.single_fungible_dcdt().err(), Some(CallValueError::FungibleTokenExpected));
    assert_eq!(
        call_value(0, vec![]).single_fungible_dcdt().err(),
        Some(CallValueError::IncorrectNumDcdtTransfers)
    );
    assert_eq!(
        call_value(0, vec![payment(b"A", 1, 1), payment(b"B", 1, 1)]).single_fungible_dcdt().err(),
        Some(CallValueError::IncorrectNumDcdtTransfers)
    );
}

#[test]
fn moa_or_single_dcdt_without_transfer_is_the_moa() {
    let paid = call_value(42, vec![]).moa_or_single_dcdt().unwrap();
    assert!(paid.token_identifier.is_moa());
    assert_eq!(paid.token_nonce, 0);
    assert_eq!(paid.amount.to_bytes_be(), vec![42u8]);

    let nothing = call_value(0, vec![]).moa_or_single_dcdt().unwrap();
    assert!(nothing.token_identifier.is_moa());
    assert!(nothing.amount.is_zero());
}

#[test]
fn moa_or_single_dcdt_with_one_transfer_is_that_transfer() {
    let paid = call_value(0, vec![payment(b"SFT", 3, 10)]).moa_or_single_dcdt().unwrap();
    assert!(paid.token_identifier.is_dcdt());
    assert!(matches!(&paid.token_identifier, MoaOrDcdtTokenIdentifier::Dcdt(id) if id == b"SFT"));
    assert_eq!(paid.token_nonce, 3);
    assert_eq!(paid.amount.to_bytes_be(), vec![10u8]);
}

#[test]
fn moa_or_single_dcdt_turns_down_two_transfers() {
    let value = call_value(0, vec![payment(b"A", 0, 1), payment(b"B", 0, 1)]);
    assert_eq!(value.moa_or_single_dcdt().err(), Some(CallValueError::IncorrectNumDcdtTransfers));
    assert_eq!(
        value.moa_or_single_fungible_dcdt().err(),
        Some(CallValueError::IncorrectNumDcdtTransfers)
    );
}

#[test]
fn moa_or_single_fungible_dcdt_gives_name_and_amount() {
    let (name, amount) = call_value(7, vec![]).moa_or_single_fungible_dcdt().unwrap();
    assert!(name.is_moa());
    assert_eq!(amount.to_bytes_be(), vec![7u8]);

    let (name, amount) =
        call_value(0, vec![payment(b"FT", 0, 8)]).moa_or_single_fungible_dcdt().unwrap();
    assert!(matches!(name, MoaOrDcdtTokenIdentifier::Dcdt(id) if id == b"FT"));
    assert_eq!(amount.to_bytes_be(), vec![8u8]);

    assert_eq!(
        call_value(0, vec![payment(b"NFT", 2, 1)]).moa_or_single_fungible_dcdt().err(),
        Some(CallValueError::FungibleTokenExpected)
    );
}

#[test]
fn any_payment_is_moa_or_all_transfers() {
    match call_value(9, vec![]).any_payment() {
        MoaOrMultiDcdtPayment::Moa(amount) => assert_eq!(amount.to_bytes_be(), vec![9u8]),
        MoaOrMultiDcdtPayment::MultiDcdt(_) => panic!("MOA expected"),
    }
    match call_value(0, vec![payment(b"A", 0, 1), payment(b"B", 2, 3)]).any_payment() {
        MoaOrMultiDcdtPayment::Moa(_) => panic!("tokens expected"),
        MoaOrMultiDcdtPayment::MultiDcdt(list) => {
            assert_eq!(list.len(), 2);
            assert_eq!(triple(&list[0]), (b"A".to_vec(), 0, vec![1]));
            assert_eq!(triple(&list[1]), (b"B".to_vec(), 2, vec![3]));
        },
    }
}

#[test]
fn errors_have_the_messages_of_the_framework() {
    assert_eq!(
        CallValueError::IncorrectNumDcdtTransfers.message(),
        "incorrect number of DCDT transfers"
    );
    assert_eq!(CallValueError::FungibleTokenExpected.message(), "fungible DCDT token expected");
}
