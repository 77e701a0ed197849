use dharitri_sdk::sc::contract_call::{ContractCallBase, ContractDeploy};
use dharitri_sdk::sc::tx::{
    Code, ExpectStatus, FromSource, FunctionCall, Moa, ReturnsRawResult, ReturnsResult, Tx,
    TxBaseWithEnv, TxData, TxDataFunctionCall, TxEnv, TxEnvWithTxHash, TxFrom, TxGas, TxPayment,
    TxScEnv, TxTestEnv, UNSPECIFIED_GAS_LIMIT,
};
use dharitri_sdk::sc::types::{
    BigUint, CodeMetadata, DcdtTokenPayment, MoaOrDcdtTokenIdentifier, MoaOrDcdtTokenPayment,
    MoaOrDcdtTokenPaymentRefs, MoaOrMultiDcdtPayment, VMAddress, H256,
};

fn address(tag: u8) -> VMAddress {
    VMAddress::new([tag; 32])
}

fn sc_env() -> TxScEnv {
    TxScEnv { sc_address: address(0xaa) }
}

fn payment(token: &[u8], nonce: u64, amount: u64) -> DcdtTokenPayment {
    DcdtTokenPayment::new(token.to_vec(), nonce, BigUint::from_u64(amount))
}

fn call(name: &[u8], args: &[&[u8]]) -> FunctionCall {
    let mut fc = FunctionCall::new(name.to_vec());
    for arg in args {
        fc = fc.argument_raw(arg.to_vec());
    }
    fc
}

#[test]
fn a_new_transaction_has_only_its_environment() {
    let tx = Tx::new_with_env(sc_env());
    assert_eq!(tx.env.sc_address.bytes, [0xaa; 32]);
    assert!(TxPayment::<TxScEnv>::is_no_payment(&tx.payment, &tx.env));
    assert!(TxData::<TxScEnv>::is_no_call(&tx.data));
    assert_eq!(tx.from.resolve_address(&tx.env).bytes, [0xaa; 32]);
    assert_eq!(tx.gas.gas_value(&tx.env), UNSPECIFIED_GAS_LIMIT);
}

#[test]
fn from_to_and_gas_set_their_part_only() {
    let tx = TxBaseWithEnv::new_with_env(sc_env()).from(address(1)).to(address(2)).gas(500u64);
    assert_eq!(tx.from.bytes, [1; 32]);
    assert_eq!(tx.to.bytes, [2; 32]);
    assert_eq!(tx.gas.0, 500);
    assert_eq!(tx.gas.gas_value(&tx.env), 500);
    assert_eq!(tx.env.sc_address.bytes, [0xaa; 32]);

    let tx = Tx::new_with_env(sc_env()).with_gas_limit(7);
    assert_eq!(tx.gas.0, 7);
}

#[test]
fn a_sender_can_be_given_by_reference() {
    let sender = address(3);
    let tx = Tx::new_with_env(sc_env()).from(&sender);
    assert_eq!(tx.from.resolve_address(&tx.env).bytes, [3; 32]);
}

#[test]
fn moa_payments() {
    let tx = Tx::new_with_env(sc_env()).moa(BigUint::from_u64(10));
    assert_eq!(tx.payment.0.to_bytes_be(), vec![10u8]);
    assert!(!tx.payment.is_no_payment(&tx.env));

    let tx = Tx::new_with_env(sc_env()).with_moa_transfer(BigUint::zero());
    assert!(tx.payment.is_no_payment(&tx.env));

    let tx = Tx::new_with_env(sc_env()).moa(12u64);
    assert_eq!(tx.payment.0, 12);
    let full = tx.payment.into_full_payment_data(&tx.env);
    assert_eq!(full.moa.unwrap().0.to_bytes_be(), vec![12u8]);
    assert!(full.multi_dcdt.is_empty());
}

#[test]
fn the_first_token_payment_is_single_and_the_second_makes_a_list() {
    let tx = Tx::new_with_env(sc_env()).dcdt(payment(b"A", 0, 1));
    assert_eq!(tx.payment.token_identifier, b"A".to_vec());

    let tx = tx.dcdt((b"B".to_vec(), 2u64, BigUint::from_u64(3)).into());
    assert_eq!(tx.payment.len(), 2);
    assert_eq!(tx.payment[0].token_identifier, b"A".to_vec());
    assert_eq!(tx.payment[1].token_identifier, b"B".to_vec());
    assert_eq!(tx.payment[1].token_nonce, 2);
    assert_eq!(tx.payment[1].amount.to_bytes_be(), vec![3u8]);

    let tx = tx.dcdt(payment(b"C", 0, 1)).multi_dcdt(payment(b"D", 0, 1));
    let tx = tx.with_dcdt_transfer(payment(b"E", 0, 1));
    let names: Vec<Vec<u8>> = tx.payment.iter().map(|p| p.token_identifier.clone()).collect();
    assert_eq!(
        names,
        vec![b"A".to_vec(), b"B".to_vec(), b"C".to_vec(), b"D".to_vec(), b"E".to_vec()]
    );
}

#[test]
fn token_payments_in_their_other_forms() {
    let token = b"T".to_vec();
    let amount = BigUint::from_u64(4);
    let tx = Tx::new_with_env(sc_env()).single_dcdt(&token, 5, &amount);
    assert_eq!(tx.payment.token_identifier, &token);
    assert_eq!(tx.payment.token_nonce, 5);
    assert_eq!(tx.payment.amount.to_bytes_be(), vec![4u8]);

    let tx = Tx::new_with_env(sc_env()).multi_dcdt(vec![payment(b"A", 0, 1), payment(b"B", 0, 1)]);
    assert_eq!(tx.payment.len(), 2);

    let tx = Tx::new_with_env(sc_env()).with_multi_token_transfer(vec![payment(b"A", 0, 1)]);
    assert_eq!(tx.payment.len(), 1);

    let tx = Tx::new_with_env(sc_env()).with_dcdt_transfer(payment(b"A", 1, 1));
    assert_eq!(tx.payment.len(), 1);
    assert_eq!(tx.payment[0].token_nonce, 1);

    let paid = payment(b"A", 1, 1).into();
    let tx = Tx::new_with_env(sc_env()).with_moa_or_single_dcdt_transfer(paid);
    assert!(tx.payment.token_identifier.is_dcdt());
    assert_eq!(tx.payment.token_nonce, 1);

    let name = MoaOrDcdtTokenIdentifier::moa();
    let tx = Tx::new_with_env(sc_env()).moa_or_single_dcdt(&name, 0, &amount);
    assert!(tx.payment.token_identifier.is_moa());
    assert!(!tx.payment.is_no_payment(&tx.env));

    let tx = Tx::new_with_env(sc_env())
        .moa_or_multi_dcdt(MoaOrMultiDcdtPayment::Moa(BigUint::from_u64(1)));
    assert!(matches!(tx.payment, MoaOrMultiDcdtPayment::Moa(_)));
}

#[test]
fn raw_calls_and_their_data_field() {
    let tx = Tx::new_with_env(sc_env())
        .raw_call("add")
        .arguments_raw(vec![vec![0x01], vec![0xab, 0xcd], vec![]]);
    assert_eq!(tx.data.function_name, b"add".to_vec());
    assert_eq!(tx.to_call_data_string(), b"add@01@abcd@".to_vec());
    assert!(!TxData::<TxScEnv>::is_no_call(&tx.data));
    let fc = tx.into_function_call();
    assert_eq!(fc.arg_buffer, vec![vec![0x01], vec![0xab, 0xcd], vec![]]);

    let tx = Tx::new_with_env(sc_env()).raw_call("ping");
    assert_eq!(tx.to_call_data_string(), b"ping".to_vec());

    let tx = Tx::new_with_env(sc_env());
    assert_eq!(tx.to_call_data_string(), Vec::<u8>::new());
    assert_eq!(TxDataFunctionCall::<TxScEnv>::to_call_data_string(&()), Vec::<u8>::new());
}

#[test]
fn every_byte_is_written_as_two_lower_case_hex_digits() {
    let all: Vec<u8> = (0u8..=255).collect();
    let data = FunctionCall::new(b"f".to_vec()).argument_raw(all.clone()).to_call_data_string();
    let mut expected = String::from("f@");
    for byte in all {
        expected.push_str(&format!("{:02x}", byte));
    }
    assert_eq!(data, expected.into_bytes());
}

#[test]
fn a_call_without_tokens_is_normalized_to_itself() {
    let tx = Tx::new_with_env(sc_env())
        .to(address(2))
        .moa(BigUint::from_u64(9))
        .raw_data(call(b"f", &[b"x"]))
        .normalize();
    assert_eq!(tx.to.bytes, [2; 32]);
    assert_eq!(tx.payment.0.to_bytes_be(), vec![9u8]);
    assert_eq!(tx.data.function_name, b"f".to_vec());
    assert_eq!(tx.data.arg_buffer, vec![b"x".to_vec()]);

    let tx = Tx::new_with_env(sc_env()).to(address(2)).raw_data(call(b"f", &[])).normalize();
    assert_eq!(tx.to.bytes, [2; 32]);
    assert!(tx.payment.0.is_zero());
    assert_eq!(tx.data.function_name, b"f".to_vec());
}

#[test]
fn a_fungible_payment_becomes_a_transfer_to_the_recipient() {
    let tx = Tx::new_with_env(sc_env())
        .from(address(1))
        .to(address(2))
        .dcdt(payment(b"FT-1", 0, 300))
        .raw_data(call(b"f", &[b"x", b"y"]))
        .normalize();
    assert_eq!(tx.to.bytes, [2; 32]);
    assert!(tx.payment.0.is_zero());
    assert_eq!(tx.data.function_name, b"DCDTTransfer".to_vec());
    assert_eq!(
        tx.data.arg_buffer,
        vec![b"FT-1".to_vec(), vec![1, 44], b"f".to_vec(), b"x".to_vec(), b"y".to_vec()]
    );
}

#[test]
fn a_transfer_without_a_call_carries_no_call_arguments() {
    let tx = Tx::new_with_env(sc_env())
        .to(address(2))
        .dcdt(payment(b"FT-1", 0, 1))
        .raw_data(FunctionCall::empty().argument_raw(b"dropped".to_vec()))
        .normalize();
    assert_eq!(tx.data.function_name, b"DCDTTransfer".to_vec());
    assert_eq!(tx.data.arg_buffer, vec![b"FT-1".to_vec(), vec![1u8]]);
}

#[test]
fn a_token_instance_becomes_a_transfer_that_the_sender_sends_to_itself() {
    let token = b"NFT-1".to_vec();
    let amount = BigUint::from_u64(1);
    let tx = Tx::new_with_env(sc_env())
        .from(address(1))
        .to(address(2))
        .single_dcdt(&token, 258, &amount)
        .raw_data(call(b"f", &[b"x"]))
        .normalize();
    assert_eq!(tx.to.bytes, [1; 32]);
    assert!(tx.payment.0.is_zero());
    assert_eq!(tx.data.function_name, b"DCDTNFTTransfer".to_vec());
    assert_eq!(
        tx.data.arg_buffer,
        vec![b"NFT-1".to_vec(), vec![1, 2], vec![1], vec![2u8; 32], b"f".to_vec(), b"x".to_vec()]
    );
}

#[test]
fn without_a_sender_the_environment_sends() {
    let tx = Tx::new_with_env(sc_env())
        .to(address(2))
        .dcdt(payment(b"NFT-1", 1, 1))
        .raw_data(call(b"f", &[]))
        .normalize();
    assert_eq!(tx.to.bytes, [0xaa; 32]);
}

#[test]
fn several_payments_become_a_multi_transfer() {
    let tx = Tx::new_with_env(sc_env())
        .from(address(1))
        .to(address(2))
        .dcdt(payment(b"A", 0, 256))
        .dcdt(payment(b"B", 7, 0))
        .raw_data(call(b"f", &[b"x"]))
        .normalize();
    assert_eq!(tx.to.bytes, [1; 32]);
    assert!(tx.payment.0.is_zero());
    assert_eq!(tx.data.function_name, b"MultiDCDTNFTTransfer".to_vec());
    assert_eq!(
        tx.data.arg_buffer,
        vec![
            vec![2u8; 32],
            vec![2],
            b"A".to_vec(),
            vec![],
            vec![1, 0],
            b"B".to_vec(),
            vec![7],
            vec![],
            b"f".to_vec(),
            b"x".to_vec(),
        ]
    );
}

#[test]
fn a_list_of_one_or_none_is_normalized_as_one_or_none() {
    let tx = Tx::new_with_env(sc_env())
        .to(address(2))
        .with_multi_token_transfer(vec![payment(b"A", 0, 5)])
        .raw_data(call(b"f", &[]))
        .normalize();
    assert_eq!(tx.to.bytes, [2; 32]);
    assert_eq!(tx.data.function_name, b"DCDTTransfer".to_vec());
    assert_eq!(tx.data.arg_buffer, vec![b"A".to_vec(), vec![5], b"f".to_vec()]);

    let tx = Tx::new_with_env(sc_env())
        .to(address(2))
        .with_multi_token_transfer(vec![])
        .raw_data(call(b"f", &[]))
        .normalize();
    assert_eq!(tx.to.bytes, [2; 32]);
    assert!(tx.payment.0.is_zero());
    assert_eq!(tx.data.function_name, b"f".to_vec());
}

#[test]
fn moa_or_token_goes_the_way_of_what_it_names() {
    let amount = BigUint::from_u64(3);
    let moa = MoaOrDcdtTokenIdentifier::moa();
    let tx = Tx::new_with_env(sc_env())
        .to(address(2))
        .moa_or_single_dcdt(&moa, 0, &amount)
        .raw_data(call(b"f", &[]))
        .normalize();
    assert_eq!(tx.to.bytes, [2; 32]);
    assert_eq!(tx.payment.0.to_bytes_be(), vec![3u8]);
    assert_eq!(tx.data.function_name, b"f".to_vec());

    let token = MoaOrDcdtTokenIdentifier::dcdt(b"FT".to_vec());
    let tx = Tx::new_with_env(sc_env())
        .to(address(2))
        .moa_or_single_dcdt(&token, 0, &amount)
        .raw_data(call(b"f", &[]))
        .normalize();
    assert!(tx.payment.0.is_zero());
    assert_eq!(tx.data.function_name, b"DCDTTransfer".to_vec());
    assert_eq!(tx.data.arg_buffer, vec![b"FT".to_vec(), vec![3], b"f".to_vec()]);

    let owned = MoaOrDcdtTokenPayment::new(
        MoaOrDcdtTokenIdentifier::dcdt(b"NFT".to_vec()),
        4,
        BigUint::from_u64(1),
    );
    let tx = Tx::new_with_env(sc_env())
        .from(address(1))
        .to(address(2))
        .payment(owned)
        .raw_data(call(b"f", &[]))
        .normalize();
    assert_eq!(tx.to.bytes, [1; 32]);
    assert_eq!(tx.data.function_name, b"DCDTNFTTransfer".to_vec());
}

#[test]
fn full_payment_data_of_moa_or_token() {
    let env = sc_env();
    let amount = BigUint::from_u64(3);
    let moa = MoaOrDcdtTokenIdentifier::moa();
    let refs = MoaOrDcdtTokenPaymentRefs::new(&moa, 0, &amount);
    let full = refs.into_full_payment_data(&env);
    assert_eq!(full.moa.unwrap().0.to_bytes_be(), vec![3u8]);
    assert!(full.multi_dcdt.is_empty());

    let token = MoaOrDcdtTokenIdentifier::dcdt(b"FT".to_vec());
    let refs = MoaOrDcdtTokenPaymentRefs::new(&token, 2, &amount);
    let full = refs.into_full_payment_data(&env);
    assert!(full.moa.is_none());
    assert_eq!(full.multi_dcdt.len(), 1);
    assert_eq!(full.multi_dcdt[0].token_identifier, b"FT".to_vec());
    assert_eq!(full.multi_dcdt[0].token_nonce, 2);
    assert_eq!(full.multi_dcdt[0].amount.to_bytes_be(), vec![3u8]);

    let zero = BigUint::zero();
    assert!(MoaOrDcdtTokenPaymentRefs::new(&token, 2, &zero).is_no_payment(&env));
    assert!(!MoaOrDcdtTokenPaymentRefs::new(&token, 2, &amount).is_no_payment(&env));
}

#[test]
fn transfers_say_what_the_virtual_machine_is_to_move() {
    let env = sc_env();
    let amount = BigUint::from_u64(3);
    let moa = MoaOrDcdtTokenIdentifier::moa();
    let order = MoaOrDcdtTokenPaymentRefs::new(&moa, 0, &amount).perform_transfer_execute(
        &env,
        &address(2),
        50,
        call(b"f", &[]),
    );
    assert_eq!(order.to.bytes, [2; 32]);
    assert_eq!(order.gas_limit, 50);
    assert_eq!(order.function_call.function_name, b"f".to_vec());
    assert!(matches!(
        &order.payment,
        MoaOrMultiDcdtPayment::Moa(v) if v.to_bytes_be() == vec![3u8]
    ));

    let token = MoaOrDcdtTokenIdentifier::dcdt(b"FT".to_vec());
    let order = MoaOrDcdtTokenPaymentRefs::new(&token, 0, &amount).perform_transfer_execute(
        &env,
        &address(2),
        50,
        call(b"f", &[]),
    );
    match order.payment {
        MoaOrMultiDcdtPayment::MultiDcdt(list) => {
            assert_eq!(list.len(), 1);
            assert_eq!(list[0].token_identifier, b"FT".to_vec());
        },
        MoaOrMultiDcdtPayment::Moa(_) => panic!("tokens expected"),
    }

    let order = ().perform_transfer_execute(&env, &address(2), 1, FunctionCall::empty());
    assert!(matches!(&order.payment, MoaOrMultiDcdtPayment::Moa(v) if v.is_zero()));
    let order = Vec::<DcdtTokenPayment>::new().perform_transfer_execute(
        &env,
        &address(2),
        1,
        FunctionCall::empty(),
    );
    assert!(matches!(&order.payment, MoaOrMultiDcdtPayment::Moa(v) if v.is_zero()));
}

#[test]
fn result_handlers_are_kept_in_the_order_they_were_added() {
    let tx = Tx::new_with_env(sc_env())
        .raw_call("f")
        .original_result::<u64>()
        .returning(ReturnsResult)
        .with_result(ExpectStatus(4))
        .returning(ReturnsRawResult);
    let ExpectStatus(status) = tx.result_handler.tail.head;
    assert_eq!(status, 4);
    let _first: ReturnsResult = tx.result_handler.head;
    let _last: ReturnsRawResult = tx.result_handler.tail.tail.head;
}

#[test]
fn deploys_and_upgrades() {
    let tx = Tx::new_with_env(sc_env())
        .raw_deploy()
        .code(vec![1u8, 2, 3])
        .code_metadata(CodeMetadata::from_bits(0x0100))
        .arguments_raw(vec![vec![9]]);
    assert_eq!(tx.data.code_source.0, vec![1u8, 2, 3]);
    assert_eq!(tx.data.code_metadata.bits, 0x0100);
    assert!(tx.data.code_metadata.has(0x0100));
    assert!(!tx.data.code_metadata.has(0x0400));
    assert_eq!(tx.data.arg_buffer, vec![vec![9u8]]);
    assert!(!TxData::<TxScEnv>::is_no_call(&tx.data));

    let tx = Tx::new_with_env(sc_env()).raw_deploy().from_source(address(6));
    let FromSource(source) = tx.data.code_source;
    assert_eq!(source.bytes, [6; 32]);
    assert_eq!(tx.data.code_metadata.bits, 0);

    let tx = Tx::new_with_env(sc_env())
        .to(address(2))
        .raw_upgrade()
        .code(vec![4u8])
        .code_metadata(CodeMetadata::from_bits(0x0402))
        .arguments_raw(vec![vec![1], vec![2]]);
    let Code(code) = &tx.data.code_source;
    assert_eq!(code, &vec![4u8]);
    assert_eq!(tx.data.code_metadata.bits, 0x0402);
    assert_eq!(tx.data.arg_buffer.len(), 2);

    let tx = Tx::new_with_env(sc_env()).raw_upgrade().from_source(address(6));
    assert_eq!(tx.data.code_source.0.bytes, [6; 32]);
}

#[test]
fn tests_choose_hash_and_deploy_address() {
    let env = TxTestEnv::new(address(1), 5_000_000);
    assert_eq!(env.default_gas_value(), 5_000_000);
    assert_eq!(env.resolve_sender_address().bytes, [1; 32]);

    let tx = Tx::new_with_env(env).tx_hash([7u8; 32].into());
    assert_eq!(tx.env.tx_hash.unwrap().bytes, [7u8; 32]);
    let mut env = tx.env;
    assert_eq!(env.take_tx_hash().unwrap().bytes, [7u8; 32]);
    assert!(env.take_tx_hash().is_none());
    env.set_tx_hash(H256::zero());
    assert_eq!(env.tx_hash.unwrap().bytes, [0u8; 32]);

    let tx = Tx::new_with_env(TxTestEnv::new(address(1), 0))
        .from(address(3))
        .raw_deploy()
        .new_address(address(4))
        .new_address(address(5));
    let chosen: Vec<([u8; 32], [u8; 32])> =
        tx.env.mock_deploy_addresses.iter().map(|(from, new)| (from.bytes, new.bytes)).collect();
    assert_eq!(chosen, vec![([3; 32], [4; 32]), ([3; 32], [5; 32])]);
}

#[test]
fn proxy_calls_bring_recipient_and_data() {
    let call = Tx::new_with_env(sc_env())
        .to(address(2))
        .raw_data(call(b"f", &[b"x"]))
        .original_result::<()>();
    let tx = Tx::new_with_env(TxTestEnv::new(address(1), 10))
        .from(address(3))
        .moa(5u64)
        .gas(20u64)
        .legacy_proxy_call(call);
    assert_eq!(tx.to.bytes, [2; 32]);
    assert_eq!(tx.from.bytes, [3; 32]);
    assert_eq!(tx.payment.0, 5);
    assert_eq!(tx.gas.0, 20);
    assert_eq!(tx.data.function_name, b"f".to_vec());
    assert_eq!(tx.env.default_gas, 10);
}

#[test]
fn transactions_turn_into_plain_calls_and_deploys() {
    let tx = Tx::new_with_env(sc_env())
        .to(address(2))
        .dcdt(payment(b"FT", 0, 2))
        .raw_data(call(b"f", &[]))
        .original_result::<u64>();
    let plain = tx.into_normalized();
    assert_eq!(plain.basic.to.bytes, [2; 32]);
    assert!(plain.moa_payment.is_zero());
    assert_eq!(plain.basic.explicit_gas_limit, u64::MAX);
    assert_eq!(plain.basic.function_call.function_name, b"DCDTTransfer".to_vec());
    assert_eq!(
        plain.basic.function_call.arg_buffer,
        vec![b"FT".to_vec(), vec![2], b"f".to_vec()]
    );

    let tx = Tx::new_with_env(sc_env())
        .moa(BigUint::from_u64(8))
        .raw_deploy()
        .arguments_raw(vec![vec![1]])
        .original_result::<()>();
    let deploy = ContractDeploy::from(tx);
    assert!(deploy.to.is_none());
    assert_eq!(deploy.moa_payment.to_bytes_be(), vec![8u8]);
    assert_eq!(deploy.explicit_gas_limit, u64::MAX);
    assert_eq!(deploy.arg_buffer, vec![vec![1u8]]);
}

#[test]
fn moa_as_a_payment_of_its_own() {
    let env = sc_env();
    assert!(Moa(BigUint::zero()).is_no_payment(&env));
    assert!(Moa(0u64).is_no_payment(&env));
    assert!(!Moa(1u64).is_no_payment(&env));
    let amount = BigUint::from_u64(2);
    assert!(!Moa(&amount).is_no_payment(&env));
}
