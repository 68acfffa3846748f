use bridge_sol::bytes::{i64_le_bytes, u64_be_bytes, u64_le_bytes};
use bridge_sol::message::{build_message, encode_message, right_justify};
use bridge_sol::Address;

fn nonce() -> [u8; 32] {
    let mut n = [0u8; 32];
    for i in 0..32 {
        n[i] = i as u8;
    }
    n
}

fn source() -> [u8; 20] {
    let mut s = [0u8; 20];
    for i in 0..20 {
        s[i] = 100 + i as u8;
    }
    s
}

fn dest() -> Address {
    let mut d = [0u8; 32];
    for i in 0..32 {
        d[i] = 200 + i as u8;
    }
    Address::new(d)
}

#[test]
fn encoding_has_the_fixed_layout() {
    let encoded = encode_message(&nonce(), 1_000_000, &source(), &dest());
    assert_eq!(encoded.len(), 129);
    let mut expected = vec![1u8];
    expected.extend_from_slice(&nonce());
    expected.extend_from_slice(&[0u8; 29]);
    expected.extend_from_slice(&[15, 66, 64]);
    expected.extend_from_slice(&[0u8; 12]);
    expected.extend_from_slice(&source());
    expected.extend_from_slice(&dest().bytes);
    assert_eq!(encoded, expected);
}

#[test]
fn encoding_starts_with_the_chain_tag() {
    let encoded = encode_message(&[9u8; 32], u64::MAX, &[7u8; 20], &Address::new([3u8; 32]));
    assert_eq!(encoded[0], 1);
    assert_eq!(&encoded[1..33], &[9u8; 32]);
    assert_eq!(&encoded[33..57], &[0u8; 24]);
    assert_eq!(&encoded[57..65], &[255u8; 8]);
    assert_eq!(&encoded[65..77], &[0u8; 12]);
    assert_eq!(&encoded[77..97], &[7u8; 20]);
    assert_eq!(&encoded[97..129], &[3u8; 32]);
}

#[test]
fn digest_is_sha256_of_the_encoding() {
    let digest = build_message(&nonce(), &1_000_000u64, &source(), &dest());
    let expected: [u8; 32] = [
        102, 170, 111, 142, 78, 217, 57, 66, 224, 76, 77, 70, 195, 37, 180, 99, 137, 195, 65, 53,
        134, 187, 168, 104, 132, 248, 29, 198, 15, 57, 248, 25,
    ];
    assert_eq!(digest, expected);
}

#[test]
fn digest_of_the_all_zero_claim() {
    let digest = build_message(&[0u8; 32], &0u64, &[0u8; 20], &Address::new([0u8; 32]));
    let expected: [u8; 32] = [
        184, 65, 71, 176, 238, 185, 151, 208, 148, 46, 33, 76, 224, 60, 120, 137, 229, 101, 63, 39,
        104, 48, 131, 139, 145, 226, 223, 234, 149, 40, 212, 109,
    ];
    assert_eq!(digest, expected);
    assert_ne!(digest, [0u8; 32]);
}

#[test]
fn digest_is_deterministic() {
    let first = build_message(&nonce(), &42u64, &source(), &dest());
    let second = build_message(&nonce(), &42u64, &source(), &dest());
    assert_eq!(first, second);
}

#[test]
fn digest_changes_with_any_single_byte() {
    let base = build_message(&nonce(), &42u64, &source(), &dest());

    let mut other_nonce = nonce();
    other_nonce[31] ^= 1;
    assert_ne!(build_message(&other_nonce, &42u64, &source(), &dest()), base);

    assert_ne!(build_message(&nonce(), &43u64, &source(), &dest()), base);
    assert_ne!(build_message(&nonce(), &(42u64 + (1 << 56)), &source(), &dest()), base);

    let mut other_source = source();
    other_source[0] ^= 0x80;
    assert_ne!(build_message(&nonce(), &42u64, &other_source, &dest()), base);

    let mut other_dest = dest().bytes;
    other_dest[17] ^= 4;
    assert_ne!(build_message(&nonce(), &42u64, &source(), &Address::new(other_dest)), base);
}

#[test]
fn right_justify_pads_a_short_field_in_front() {
    let out = right_justify(&[1, 2, 3]);
    let mut expected = [0u8; 32];
    expected[29] = 1;
    expected[30] = 2;
    expected[31] = 3;
    assert_eq!(out, expected);
}

#[test]
fn right_justify_keeps_a_full_field() {
    let field = nonce();
    assert_eq!(right_justify(&field), field);
}

#[test]
fn right_justify_of_nothing_is_all_zero() {
    assert_eq!(right_justify(&[]), [0u8; 32]);
}

#[test]
fn right_justify_keeps_the_first_bytes_of_a_long_field() {
    let mut field = [0u8; 40];
    for i in 0..40 {
        field[i] = i as u8 + 1;
    }
    let out = right_justify(&field);
    let mut expected = [0u8; 32];
    for i in 0..32 {
        expected[i] = i as u8 + 1;
    }
    assert_eq!(out, expected);
}

#[test]
fn big_endian_bytes_of_an_amount() {
    assert_eq!(u64_be_bytes(0), [0u8; 8]);
    assert_eq!(u64_be_bytes(1_000_000), [0, 0, 0, 0, 0, 0x0f, 0x42, 0x40]);
    assert_eq!(u64_be_bytes(0x0102_0304_0506_0708), [1, 2, 3, 4, 5, 6, 7, 8]);
    assert_eq!(u64_be_bytes(u64::MAX), [255u8; 8]);
    assert_eq!(u64_be_bytes(123_456_789_012), 123_456_789_012u64.to_be_bytes());
}

#[test]
fn little_endian_bytes_of_numbers() {
    assert_eq!(u64_le_bytes(0x0102_0304_0506_0708), [8, 7, 6, 5, 4, 3, 2, 1]);
    assert_eq!(u64_le_bytes(u64::MAX), [255u8; 8]);
    assert_eq!(i64_le_bytes(0), [0u8; 8]);
    assert_eq!(i64_le_bytes(1_700_000_000), 1_700_000_000i64.to_le_bytes());
    assert_eq!(i64_le_bytes(-1), [255u8; 8]);
    assert_eq!(i64_le_bytes(-2), [254, 255, 255, 255, 255, 255, 255, 255]);
    assert_eq!(i64_le_bytes(i64::MIN), [0, 0, 0, 0, 0, 0, 0, 0x80]);
    assert_eq!(i64_le_bytes(i64::MAX), [255, 255, 255, 255, 255, 255, 255, 0x7f]);
}
