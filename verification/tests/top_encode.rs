use dharitri_sdk::types::{top_decode_u64, top_encode_u64, BigUint};

#[test]
fn zero_is_encoded_as_the_empty_buffer() {
    assert_eq!(top_encode_u64(0), Vec::<u8>::new());
}

#[test]
fn small_numbers_take_one_byte() {
    assert_eq!(top_encode_u64(5), vec![5u8]);
    assert_eq!(top_encode_u64(255), vec![255u8]);
}

#[test]
fn encoding_is_big_endian_without_leading_zeros() {
    assert_eq!(top_encode_u64(256), vec![1u8, 0]);
    assert_eq!(top_encode_u64(0x0102_0304), vec![1u8, 2, 3, 4]);
    assert_eq!(top_encode_u64(u64::MAX), vec![0xffu8; 8]);
}

#[test]
fn the_empty_buffer_decodes_to_zero() {
    assert_eq!(top_decode_u64(&[]), Some(0));
}

#[test]
fn decoding_accepts_leading_zeros() {
    assert_eq!(top_decode_u64(&[0, 0, 5]), Some(5));
    assert_eq!(top_decode_u64(&[0, 0, 0, 0, 0, 0, 1, 0]), Some(256));
}

#[test]
fn decoding_reads_eight_bytes_in_full() {
    assert_eq!(top_decode_u64(&[0xff; 8]), Some(u64::MAX));
    assert_eq!(top_decode_u64(&[1, 2, 3, 4, 5, 6, 7, 8]), Some(0x0102_0304_0506_0708));
}

#[test]
fn decoding_rejects_more_than_eight_bytes() {
    assert_eq!(top_decode_u64(&[1, 0, 0, 0, 0, 0, 0, 0, 0]), None);
    assert_eq!(top_decode_u64(&[0, 0, 0, 0, 0, 0, 0, 0, 1]), None);
}

#[test]
fn decoding_undoes_encoding() {
    let samples = [
        0u64,
        1,
        5,
        127,
        128,
        255,
        256,
        65_535,
        65_536,
        1 << 32,
        (1 << 56) - 1,
        1 << 56,
        u64::MAX - 1,
        u64::MAX,
    ];
    for n in samples {
        assert_eq!(top_decode_u64(&top_encode_u64(n)), Some(n));
    }
}

#[test]
fn big_uint_zero_is_zero() {
    assert!(BigUint::zero().is_zero());
    assert_eq!(BigUint::zero().to_bytes_be(), Vec::<u8>::new());
    assert!(BigUint::from_u64(0).is_zero());
    assert!(BigUint::from_bytes_be(&[0, 0, 0]).is_zero());
}

#[test]
fn big_uint_keeps_the_number() {
    assert!(!BigUint::from_u64(1).is_zero());
    assert_eq!(BigUint::from_u64(258).to_bytes_be(), vec![1u8, 2]);
    assert_eq!(BigUint::from_bytes_be(&[0, 0, 1, 2]).to_bytes_be(), vec![1u8, 2]);
    let wide = [9u8, 8, 7, 6, 5, 4, 3, 2, 1, 0];
    assert_eq!(BigUint::from_bytes_be(&wide).to_bytes_be(), wide.to_vec());
}

#[test]
fn big_uint_compares_numbers_not_bytes() {
    let a = BigUint::from_bytes_be(&[0, 0, 7]);
    let b = BigUint::from_u64(7);
    assert!(a.same_as(&b));
    assert!(!a.same_as(&BigUint::from_u64(8)));
    assert!(a.duplicate().same_as(&a));
}
