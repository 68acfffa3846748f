//! The canonical form of a cross-chain transfer claim.
//!
//! Both chains encode a claim into the same 129 bytes and hash them; the
//! digest is what validators sign. The layout is fixed: a one-byte chain
//! tag, then four 32-byte fields.

use vstd::prelude::*;
use sha2::Digest;
use sha2::Sha256;
use crate::address::Address;
use crate::bytes::{be_bytes, lemma_be_bytes_injective, lemma_be_bytes_len,
    lemma_u64_fits_eight_bytes, u64_be_bytes};

verus! {

/// Tag of this chain, the first byte of every encoded claim.
pub const CHAIN_TAG: u8 = 1;

/// Length of an encoded claim.
pub const MESSAGE_BYTES: usize = 129;

/// `field` right-justified in 32 bytes: zeros in front, and only the first
/// 32 bytes of a longer field.
pub open spec fn right_justified(field: Seq<u8>) -> Seq<u8> {
    let kept = if field.len() > 32 {
        field.subrange(0, 32)
    } else {
        field
    };
    Seq::new((32 - kept.len()) as nat, |i: int| 0u8) + kept
}

/// The 129 bytes of a claim: tag, nonce, amount, source address and
/// destination address, each of the last three right-justified in 32 bytes,
/// the amount most significant byte first.
pub open spec fn canonical_encoding(
    nonce: Seq<u8>,
    amount: u64,
    source_address: Seq<u8>,
    dest_address: Seq<u8>,
) -> Seq<u8> {
    seq![CHAIN_TAG] + nonce + right_justified(be_bytes(amount as nat, 8)) + right_justified(
        source_address,
    ) + right_justified(dest_address)
}

/// The SHA-256 digest of a byte string.
pub uninterp spec fn sha256_digest(data: Seq<u8>) -> Seq<u8>;

/// The digest that identifies a claim on both chains.
pub open spec fn message_digest(
    nonce: Seq<u8>,
    amount: u64,
    source_address: Seq<u8>,
    dest_address: Seq<u8>,
) -> Seq<u8> {
    sha256_digest(canonical_encoding(nonce, amount, source_address, dest_address))
}

/// Hashes `data` with `sha2::Sha256::digest`. Trusted: the result is the
/// SHA-256 digest of exactly the bytes given, which depends on nothing else.
#[verifier::external_body]
fn sha256(data: &[u8]) -> (digest: [u8; 32])
    ensures
        digest@ == sha256_digest(data@),
{
    Sha256::digest(data).into()
}

/// Right-justifies `field` in 32 bytes.
pub fn right_justify(field: &[u8]) -> (out: [u8; 32])
    ensures
        out@ == right_justified(field@),
{
    let mut out = [0u8; 32];
    let copy_len: usize = if field.len() < 32 {
        field.len()
    } else {
        32
    };
    let start: usize = 32 - copy_len;
    let mut i: usize = 0;
    while i < copy_len
        invariant
            i <= copy_len <= 32,
            copy_len <= field.len(),
            start == 32 - copy_len,
            forall|j: int| 0 <= j < start ==> out[j] == 0,
            forall|j: int| 0 <= j < i ==> out[start + j] == field[j],
        decreases copy_len - i,
    {
        out[start + i] = field[i];
        i += 1;
    }
    out
}

/// Encodes a claim into its canonical 129 bytes.
pub fn encode_message(
    nonce: &[u8; 32],
    amount: u64,
    source_address: &[u8; 20],
    dest_address: &Address,
) -> (message: Vec<u8>)
    ensures
        message@ == canonical_encoding(nonce@, amount, source_address@, dest_address@),
        message@.len() == MESSAGE_BYTES,
{
    let mut message: Vec<u8> = Vec::with_capacity(MESSAGE_BYTES);
    message.push(CHAIN_TAG);
    message.extend_from_slice(nonce.as_slice());
    let amount_be = u64_be_bytes(amount);
    let amount_bytes = right_justify(amount_be.as_slice());
    message.extend_from_slice(amount_bytes.as_slice());
    let source_address_padded = right_justify(source_address.as_slice());
    message.extend_from_slice(source_address_padded.as_slice());
    let dest_address_padded = right_justify(dest_address.as_bytes());
    message.extend_from_slice(dest_address_padded.as_slice());
    message
}

/// Builds the digest of a claim: the SHA-256 hash of its canonical encoding.
pub fn build_message(
    nonce: &[u8; 32],
    amount: &u64,
    source_address: &[u8; 20],
    dest_address: &Address,
) -> (digest: [u8; 32])
    ensures
        digest@ == message_digest(nonce@, *amount, source_address@, dest_address@),
{
    let message = encode_message(nonce, *amount, source_address, dest_address);
    sha256(message.as_slice())
}

/// A right-justified field is 32 bytes long and ends with the field itself
/// when the field has at most 32 bytes.
pub proof fn lemma_right_justified(field: Seq<u8>)
    ensures
        right_justified(field).len() == 32,
        field.len() <= 32 ==> right_justified(field).subrange(32 - field.len(), 32) == field,
        field.len() <= 32 ==> forall|i: int|
            0 <= i < 32 - field.len() ==> right_justified(field)[i] == 0,
        field.len() > 32 ==> right_justified(field) == field.subrange(0, 32),
{
}

/// The layout of an encoded claim: 129 bytes, the tag in front, then the
/// nonce and the three right-justified fields, 32 bytes each.
pub proof fn lemma_encoding_layout(
    nonce: Seq<u8>,
    amount: u64,
    source_address: Seq<u8>,
    dest_address: Seq<u8>,
)
    requires
        nonce.len() == 32,
    ensures
        ({
            let encoded = canonical_encoding(nonce, amount, source_address, dest_address);
            &&& encoded.len() == MESSAGE_BYTES
            &&& encoded[0] == CHAIN_TAG
            &&& encoded.subrange(1, 33) == nonce
            &&& encoded.subrange(33, 65) == right_justified(be_bytes(amount as nat, 8))
            &&& encoded.subrange(65, 97) == right_justified(source_address)
            &&& encoded.subrange(97, 129) == right_justified(dest_address)
        }),
{
}

/// The encoding loses nothing: two claims with the same encoding agree in
/// nonce, amount, source address and destination address.
pub proof fn lemma_encoding_injective(
    nonce1: Seq<u8>,
    amount1: u64,
    source1: Seq<u8>,
    dest1: Seq<u8>,
    nonce2: Seq<u8>,
    amount2: u64,
    source2: Seq<u8>,
    dest2: Seq<u8>,
)
    requires
        nonce1.len() == 32 && nonce2.len() == 32,
        source1.len() == 20 && source2.len() == 20,
        dest1.len() == 32 && dest2.len() == 32,
        canonical_encoding(nonce1, amount1, source1, dest1) == canonical_encoding(
            nonce2,
            amount2,
            source2,
            dest2,
        ),
    ensures
        nonce1 == nonce2,
        amount1 == amount2,
        source1 == source2,
        dest1 == dest2,
{
    lemma_encoding_layout(nonce1, amount1, source1, dest1);
    lemma_encoding_layout(nonce2, amount2, source2, dest2);
    lemma_right_justified(source1);
    lemma_right_justified(source2);
    lemma_right_justified(dest1);
    lemma_right_justified(dest2);
    let be1 = be_bytes(amount1 as nat, 8);
    let be2 = be_bytes(amount2 as nat, 8);
    lemma_be_bytes_len(amount1 as nat, 8);
    lemma_be_bytes_len(amount2 as nat, 8);
    lemma_right_justified(be1);
    lemma_right_justified(be2);
    lemma_u64_fits_eight_bytes(amount1);
    lemma_u64_fits_eight_bytes(amount2);
    lemma_be_bytes_injective(amount1 as nat, amount2 as nat, 8);
}

/// The digest is a function of the claim: equal claims have equal digests.
pub proof fn lemma_digest_deterministic(
    nonce1: Seq<u8>,
    amount1: u64,
    source1: Seq<u8>,
    dest1: Seq<u8>,
    nonce2: Seq<u8>,
    amount2: u64,
    source2: Seq<u8>,
    dest2: Seq<u8>,
)
    requires
        nonce1 == nonce2,
        amount1 == amount2,
        source1 == source2,
        dest1 == dest2,
    ensures
        message_digest(nonce1, amount1, source1, dest1) == message_digest(
            nonce2,
            amount2,
            source2,
            dest2,
        ),
{
}

/// Two claims that differ in any field have different digests, provided
/// SHA-256 does not collide on their two encodings.
pub proof fn lemma_distinct_claims_distinct_digests(
    nonce1: Seq<u8>,
    amount1: u64,
    source1: Seq<u8>,
    dest1: Seq<u8>,
    nonce2: Seq<u8>,
    amount2: u64,
    source2: Seq<u8>,
    dest2: Seq<u8>,
)
    requires
        nonce1.len() == 32 && nonce2.len() == 32,
        source1.len() == 20 && source2.len() == 20,
        dest1.len() == 32 && dest2.len() == 32,
        nonce1 != nonce2 || amount1 != amount2 || source1 != source2 || dest1 != dest2,
        sha256_digest(canonical_encoding(nonce1, amount1, source1, dest1)) == sha256_digest(
            canonical_encoding(nonce2, amount2, source2, dest2),
        ) ==> canonical_encoding(nonce1, amount1, source1, dest1) == canonical_encoding(
            nonce2,
            amount2,
            source2,
            dest2,
        ),
    ensures
        message_digest(nonce1, amount1, source1, dest1) != message_digest(
            nonce2,
            amount2,
            source2,
            dest2,
        ),
{
    if message_digest(nonce1, amount1, source1, dest1) == message_digest(
        nonce2,
        amount2,
        source2,
        dest2,
    ) {
        lemma_encoding_injective(
            nonce1,
            amount1,
            source1,
            dest1,
            nonce2,
            amount2,
            source2,
            dest2,
        );
    }
}

} // verus!
