use bridge_sol::quorum::{
    signature_verdict, tally_outcomes, verify_signature, verify_signatures, Signature,
};
use bridge_sol::{Address, ErrorCode};
use secp256k1::{Message, PublicKey, Secp256k1, SecretKey};

const DIGEST: [u8; 32] = [0xab; 32];

fn secret(seed: u8) -> SecretKey {
    SecretKey::from_byte_array(&[seed; 32]).expect("a valid secret key")
}

fn sign(seed: u8, digest: &[u8; 32]) -> Signature {
    let secp = Secp256k1::new();
    let recoverable = secp.sign_ecdsa_recoverable(&Message::from_digest(*digest), &secret(seed));
    let (id, compact) = recoverable.serialize_compact();
    let mut r = [0u8; 32];
    let mut s = [0u8; 32];
    r.copy_from_slice(&compact[..32]);
    s.copy_from_slice(&compact[32..]);
    Signature { r, s, v: 27 + i32::from(id) as u8 }
}

fn compressed_key(seed: u8) -> [u8; 33] {
    PublicKey::from_secret_key(&Secp256k1::new(), &secret(seed)).serialize()
}

fn uncompressed_key(seed: u8) -> [u8; 65] {
    PublicKey::from_secret_key(&Secp256k1::new(), &secret(seed)).serialize_uncompressed()
}

#[test]
fn a_signature_verifies_under_its_own_key() {
    let signature = sign(0xcd, &DIGEST);
    assert_eq!(verify_signature(&signature, &compressed_key(0xcd), &DIGEST), Ok(true));
    assert_eq!(verify_signature(&signature, &uncompressed_key(0xcd), &DIGEST), Ok(true));
}

#[test]
fn a_signature_over_another_digest_is_not_valid() {
    let signature = sign(0xcd, &DIGEST);
    let mut other = DIGEST;
    other[0] ^= 1;
    assert_eq!(verify_signature(&signature, &compressed_key(0xcd), &other), Ok(false));
}

#[test]
fn a_signature_under_another_key_is_not_valid() {
    let signature = sign(0xcd, &DIGEST);
    assert_eq!(verify_signature(&signature, &compressed_key(0x11), &DIGEST), Ok(false));
}

#[test]
fn a_tampered_signature_is_not_valid() {
    let mut signature = sign(0xcd, &DIGEST);
    signature.s[31] ^= 1;
    assert_eq!(verify_signature(&signature, &compressed_key(0xcd), &DIGEST), Ok(false));
}

#[test]
fn the_recovery_byte_does_not_change_the_check() {
    let signature = sign(0xcd, &DIGEST);
    for v in 27u8..=30 {
        let same = Signature { r: signature.r, s: signature.s, v };
        assert_eq!(verify_signature(&same, &compressed_key(0xcd), &DIGEST), Ok(true));
    }
}

#[test]
fn a_recovery_byte_out_of_range_is_an_invalid_signature() {
    let signature = sign(0xcd, &DIGEST);
    for v in [0u8, 1, 26, 31, 255] {
        let bad = Signature { r: signature.r, s: signature.s, v };
        assert_eq!(
            verify_signature(&bad, &compressed_key(0xcd), &DIGEST),
            Err(ErrorCode::InvalidSignature)
        );
    }
}

#[test]
fn signature_bytes_beyond_the_group_order_are_an_invalid_signature() {
    let signature = sign(0xcd, &DIGEST);
    let bad_r = Signature { r: [0xff; 32], s: signature.s, v: 27 };
    assert_eq!(
        verify_signature(&bad_r, &compressed_key(0xcd), &DIGEST),
        Err(ErrorCode::InvalidSignature)
    );
    let bad_s = Signature { r: signature.r, s: [0xff; 32], v: 27 };
    assert_eq!(
        verify_signature(&bad_s, &compressed_key(0xcd), &DIGEST),
        Err(ErrorCode::InvalidSignature)
    );
}

#[test]
fn an_invalid_signature_is_reported_before_an_invalid_key() {
    let bad = Signature { r: [0xff; 32], s: [0xff; 32], v: 27 };
    assert_eq!(verify_signature(&bad, &[0u8; 32], &DIGEST), Err(ErrorCode::InvalidSignature));
}

#[test]
fn a_key_that_does_not_parse_is_an_invalid_public_key() {
    let signature = sign(0xcd, &DIGEST);
    assert_eq!(verify_signature(&signature, &[], &DIGEST), Err(ErrorCode::InvalidPublicKey));
    assert_eq!(verify_signature(&signature, &[0u8; 32], &DIGEST), Err(ErrorCode::InvalidPublicKey));
    assert_eq!(verify_signature(&signature, &[0u8; 33], &DIGEST), Err(ErrorCode::InvalidPublicKey));
    let mut key = compressed_key(0xcd);
    key[0] = 0x05;
    assert_eq!(verify_signature(&signature, &key, &DIGEST), Err(ErrorCode::InvalidPublicKey));
}

#[test]
fn an_empty_slot_of_zeros_is_checked_and_fails() {
    let zero = Signature { r: [0u8; 32], s: [0u8; 32], v: 0 };
    assert_eq!(verify_signature(&zero, &[0u8; 32], &DIGEST), Err(ErrorCode::InvalidSignature));
    let zero_with_id = Signature { r: [0u8; 32], s: [0u8; 32], v: 27 };
    assert_eq!(
        verify_signature(&zero_with_id, &[0u8; 32], &DIGEST),
        Err(ErrorCode::InvalidPublicKey)
    );
    assert_eq!(verify_signature(&zero_with_id, &compressed_key(0xcd), &DIGEST), Ok(false));
}

#[test]
fn verdict_on_the_steps_of_a_signature_check() {
    assert_eq!(signature_verdict(true, true, true), Ok(true));
    assert_eq!(signature_verdict(true, true, false), Ok(false));
    assert_eq!(signature_verdict(true, false, false), Err(ErrorCode::InvalidPublicKey));
    assert_eq!(signature_verdict(true, false, true), Err(ErrorCode::InvalidPublicKey));
    assert_eq!(signature_verdict(false, true, true), Err(ErrorCode::InvalidSignature));
    assert_eq!(signature_verdict(false, false, false), Err(ErrorCode::InvalidSignature));
}

#[test]
fn tally_reaches_the_threshold() {
    let outcomes = [Ok(true), Ok(false), Ok(true), Ok(true)];
    assert_eq!(tally_outcomes(&outcomes, 3), Ok(true));
    assert_eq!(tally_outcomes(&outcomes, 4), Ok(false));
    assert_eq!(tally_outcomes(&outcomes, 0), Ok(true));
}

#[test]
fn tally_counts_whichever_positions_verify() {
    let front = [Ok(true), Ok(true), Ok(false), Ok(false)];
    let back = [Ok(false), Ok(false), Ok(true), Ok(true)];
    let mixed = [Ok(true), Ok(false), Ok(false), Ok(true)];
    for outcomes in [front, back, mixed] {
        assert_eq!(tally_outcomes(&outcomes, 2), Ok(true));
        assert_eq!(tally_outcomes(&outcomes, 3), Ok(false));
    }
}

#[test]
fn tally_of_two_valid_out_of_three_required_fails() {
    let mut outcomes = [Ok(false); 16];
    outcomes[0] = Ok(true);
    outcomes[1] = Ok(true);
    assert_eq!(tally_outcomes(&outcomes, 3), Ok(false));
    outcomes[2] = Ok(true);
    assert_eq!(tally_outcomes(&outcomes, 3), Ok(true));
}

#[test]
fn tally_of_nothing() {
    assert_eq!(tally_outcomes(&[], 0), Ok(true));
    assert_eq!(tally_outcomes(&[], 1), Ok(false));
}

#[test]
fn tally_stops_at_the_first_error() {
    let outcomes = [
        Ok(true),
        Err(ErrorCode::InvalidPublicKey),
        Ok(true),
        Err(ErrorCode::InvalidSignature),
    ];
    assert_eq!(tally_outcomes(&outcomes, 1), Err(ErrorCode::InvalidPublicKey));
    let outcomes = [Ok(true), Ok(true), Err(ErrorCode::InvalidSignature)];
    assert_eq!(tally_outcomes(&outcomes, 2), Err(ErrorCode::InvalidSignature));
}

#[test]
fn tally_counts_all_sixteen() {
    let outcomes = [Ok(true); 16];
    assert_eq!(tally_outcomes(&outcomes, 16), Ok(true));
    assert_eq!(tally_outcomes(&outcomes, 17), Ok(false));
    assert_eq!(tally_outcomes(&outcomes, 255), Ok(false));
}

#[test]
fn fewer_signatures_than_required_are_not_enough() {
    let signatures = [sign(1, &DIGEST), sign(2, &DIGEST)];
    let validators = [Address::new([1u8; 32]), Address::new([2u8; 32])];
    assert_eq!(
        verify_signatures(&signatures, &validators, &DIGEST, 3),
        Err(ErrorCode::NotEnoughSignatures)
    );
}

#[test]
fn signature_and_validator_lists_must_match_in_length() {
    let signatures = [sign(1, &DIGEST), sign(2, &DIGEST)];
    let validators = [Address::new([1u8; 32])];
    assert_eq!(
        verify_signatures(&signatures, &validators, &DIGEST, 2),
        Err(ErrorCode::MismatchedSignaturesAndKeys)
    );
    assert_eq!(
        verify_signatures(&signatures, &validators, &DIGEST, 3),
        Err(ErrorCode::NotEnoughSignatures)
    );
}

#[test]
fn empty_lists_meet_a_threshold_of_zero() {
    assert_eq!(verify_signatures(&[], &[], &DIGEST, 0), Ok(true));
    assert_eq!(verify_signatures(&[], &[], &DIGEST, 1), Err(ErrorCode::NotEnoughSignatures));
}

#[test]
fn an_address_in_a_validator_slot_is_not_a_public_key() {
    let signatures = [sign(1, &DIGEST); 16];
    let validators = [Address::new([0u8; 32]); 16];
    assert_eq!(
        verify_signatures(&signatures, &validators, &DIGEST, 1),
        Err(ErrorCode::InvalidPublicKey)
    );
    let validators = [Address::new([7u8; 32]); 16];
    assert_eq!(
        verify_signatures(&signatures, &validators, &DIGEST, 0),
        Err(ErrorCode::InvalidPublicKey)
    );
}

#[test]
fn the_first_failing_slot_decides_the_error() {
    let mut signatures = [sign(1, &DIGEST); 16];
    signatures[0].v = 99;
    let validators = [Address::new([7u8; 32]); 16];
    assert_eq!(
        verify_signatures(&signatures, &validators, &DIGEST, 1),
        Err(ErrorCode::InvalidSignature)
    );
    signatures[0].v = 27;
    signatures[1].v = 99;
    assert_eq!(
        verify_signatures(&signatures, &validators, &DIGEST, 1),
        Err(ErrorCode::InvalidPublicKey)
    );
}
