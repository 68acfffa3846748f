//! Signature checks and the quorum tally.
//!
//! A withdrawal carries one signature slot per validator slot. Slot `i` is
//! checked against validator `i` and no other; the claim is attested when
//! at least the threshold number of slots verify.

use vstd::prelude::*;
use secp256k1::ecdsa::RecoverableSignature;
use secp256k1::ecdsa::RecoveryId;
use secp256k1::Message;
use secp256k1::PublicKey;
use secp256k1::Secp256k1;
use crate::address::Address;
use crate::error::ErrorCode;

verus! {

/// Offset between the recovery byte of a signature and its recovery id.
pub const RECOVERY_OFFSET: u8 = 27;

/// An ECDSA signature over secp256k1 with its recovery byte.
#[derive(Clone, Copy, Debug, PartialEq, Eq)]
pub struct Signature {
    pub r: [u8; 32],
    pub s: [u8; 32],
    /// Recovery byte: the recovery id plus 27.
    pub v: u8,
}

/// Whether `r` and `s`, read as a 64-byte compact signature with the given
/// recovery id, parse as a recoverable signature.
pub uninterp spec fn compact_signature_parses(r: Seq<u8>, s: Seq<u8>, recovery_id: int) -> bool;

/// Whether `key` parses as a serialized secp256k1 public key.
pub uninterp spec fn public_key_parses(key: Seq<u8>) -> bool;

/// Whether the signature `(r, s)`, once parsed with the given recovery id
/// and reduced to its plain form, is accepted for `digest` under the public
/// key serialized in `key`.
pub uninterp spec fn ecdsa_accepts(
    digest: Seq<u8>,
    r: Seq<u8>,
    s: Seq<u8>,
    recovery_id: int,
    key: Seq<u8>,
) -> bool;

/// Asks `secp256k1::ecdsa::RecoveryId::try_from` whether `id` is a recovery
/// id. Trusted: it accepts 0, 1, 2 and 3 and nothing else.
#[verifier::external_body]
fn recovery_id_is_valid(id: i32) -> (ok: bool)
    ensures
        ok == (0 <= id <= 3),
{
    RecoveryId::try_from(id).is_ok()
}

/// Asks `secp256k1::ecdsa::RecoverableSignature::from_compact` whether the
/// 64 bytes `r || s` parse. Trusted: the answer depends on the bytes and the
/// recovery id alone.
#[verifier::external_body]
fn signature_parses(r: &[u8; 32], s: &[u8; 32], recovery_id: i32) -> (ok: bool)
    requires
        0 <= recovery_id <= 3,
    ensures
        ok == compact_signature_parses(r@, s@, recovery_id as int),
{
    let id = RecoveryId::try_from(recovery_id).unwrap();
    RecoverableSignature::from_compact(&[&r[..], &s[..]].concat(), id).is_ok()
}

/// Asks `secp256k1::PublicKey::from_slice` whether `key` parses. Trusted:
/// the answer depends on the bytes alone.
#[verifier::external_body]
fn key_parses(key: &[u8]) -> (ok: bool)
    ensures
        ok == public_key_parses(key@),
{
    PublicKey::from_slice(key).is_ok()
}

/// Checks a parsed signature with `secp256k1::Secp256k1::verify_ecdsa`, on a
/// verification-only context, after `RecoverableSignature::to_standard`.
/// Trusted: the answer depends on the digest, the signature bytes, the
/// recovery id and the key bytes alone. The signature and the key must be
/// ones that parse.
#[verifier::external_body]
fn ecdsa_verify(
    digest: &[u8; 32],
    r: &[u8; 32],
    s: &[u8; 32],
    recovery_id: i32,
    key: &[u8],
) -> (ok: bool)
    requires
        0 <= recovery_id <= 3,
        compact_signature_parses(r@, s@, recovery_id as int),
        public_key_parses(key@),
    ensures
        ok == ecdsa_accepts(digest@, r@, s@, recovery_id as int, key@),
{
    let id = RecoveryId::try_from(recovery_id).unwrap();
    let recoverable = RecoverableSignature::from_compact(&[&r[..], &s[..]].concat(), id).unwrap();
    let standard = recoverable.to_standard();
    let pubkey = PublicKey::from_slice(key).unwrap();
    let message = Message::from_digest(*digest);
    Secp256k1::verification_only().verify_ecdsa(&message, &standard, &pubkey).is_ok()
}

/// Whether the signature has a recovery byte in 27..=30 and bytes that
/// parse.
pub open spec fn signature_is_well_formed(signature: Signature) -> bool {
    let id = signature.v as int - RECOVERY_OFFSET as int;
    0 <= id <= 3 && compact_signature_parses(signature.r@, signature.s@, id)
}

/// What a signature check comes to, given whether the signature is well
/// formed, whether the key parses, and what the cryptographic check
/// answered: a malformed signature is `InvalidSignature`; otherwise a key
/// that does not parse is `InvalidPublicKey`; otherwise the answer of the
/// cryptographic check, which is no error when it is `false`.
pub open spec fn verdict_of(
    signature_ok: bool,
    key_ok: bool,
    accepted: bool,
) -> Result<bool, ErrorCode> {
    if !signature_ok {
        Err(ErrorCode::InvalidSignature)
    } else if !key_ok {
        Err(ErrorCode::InvalidPublicKey)
    } else {
        Ok(accepted)
    }
}

/// What checking one signature against one validator key comes to.
pub open spec fn signature_outcome(
    signature: Signature,
    key: Seq<u8>,
    digest: Seq<u8>,
) -> Result<bool, ErrorCode> {
    verdict_of(
        signature_is_well_formed(signature),
        public_key_parses(key),
        ecdsa_accepts(
            digest,
            signature.r@,
            signature.s@,
            signature.v as int - RECOVERY_OFFSET as int,
            key,
        ),
    )
}

/// Decides a signature check from the answers of its steps; see
/// [`verdict_of`].
pub fn signature_verdict(
    signature_ok: bool,
    key_ok: bool,
    accepted: bool,
) -> (out: Result<bool, ErrorCode>)
    ensures
        out == verdict_of(signature_ok, key_ok, accepted),
{
    if !signature_ok {
        Err(ErrorCode::InvalidSignature)
    } else if !key_ok {
        Err(ErrorCode::InvalidPublicKey)
    } else {
        Ok(accepted)
    }
}

/// Checks one signature over `message_hash` against the serialized public
/// key of one validator.
///
/// The answer is `Ok(false)`, not an error, when signature and key are well
/// formed and the signature is not one by that key over that digest.
pub fn verify_signature(
    signature: &Signature,
    validator_pubkey: &[u8],
    message_hash: &[u8; 32],
) -> (out: Result<bool, ErrorCode>)
    ensures
        out == signature_outcome(*signature, validator_pubkey@, message_hash@),
{
    let recovery_id: i32 = signature.v as i32 - RECOVERY_OFFSET as i32;
    let signature_ok = recovery_id_is_valid(recovery_id) && signature_parses(
        &signature.r,
        &signature.s,
        recovery_id,
    );
    let key_ok = signature_ok && key_parses(validator_pubkey);
    let accepted = key_ok && ecdsa_verify(
        message_hash,
        &signature.r,
        &signature.s,
        recovery_id,
        validator_pubkey,
    );
    signature_verdict(signature_ok, key_ok, accepted)
}

/// The error of the first failed check, if any check failed.
pub open spec fn first_error(outcomes: Seq<Result<bool, ErrorCode>>) -> Option<ErrorCode>
    decreases outcomes.len(),
{
    if outcomes.len() == 0 {
        None
    } else {
        match first_error(outcomes.drop_last()) {
            Some(e) => Some(e),
            None => match outcomes.last() {
                Err(e) => Some(e),
                Ok(_) => None,
            },
        }
    }
}

/// How many checks came out valid.
pub open spec fn valid_count(outcomes: Seq<Result<bool, ErrorCode>>) -> nat
    decreases outcomes.len(),
{
    if outcomes.len() == 0 {
        0
    } else {
        valid_count(outcomes.drop_last()) + if outcomes.last() == Ok::<bool, ErrorCode>(true) {
            1nat
        } else {
            0nat
        }
    }
}

/// The verdict on a list of positional checks: the first error if there is
/// one, else whether the valid ones reach the threshold.
pub open spec fn tally(
    outcomes: Seq<Result<bool, ErrorCode>>,
    required_signatures: u8,
) -> Result<bool, ErrorCode> {
    match first_error(outcomes) {
        Some(e) => Err(e),
        None => Ok(valid_count(outcomes) >= required_signatures),
    }
}

/// The outcome of each positional check of `signatures` against
/// `validator_pubkeys`.
pub open spec fn pair_outcomes(
    signatures: Seq<Signature>,
    validator_pubkeys: Seq<Address>,
    digest: Seq<u8>,
) -> Seq<Result<bool, ErrorCode>> {
    Seq::new(
        signatures.len(),
        |i: int| signature_outcome(signatures[i], validator_pubkeys[i]@, digest),
    )
}

/// The verdict of the quorum check.
pub open spec fn quorum_outcome(
    signatures: Seq<Signature>,
    validator_pubkeys: Seq<Address>,
    digest: Seq<u8>,
    required_signatures: u8,
) -> Result<bool, ErrorCode> {
    if signatures.len() < required_signatures {
        Err(ErrorCode::NotEnoughSignatures)
    } else if signatures.len() != validator_pubkeys.len() {
        Err(ErrorCode::MismatchedSignaturesAndKeys)
    } else {
        tally(pair_outcomes(signatures, validator_pubkeys, digest), required_signatures)
    }
}

/// A list without a failed check has no first error, and at most as many
/// valid checks as entries.
pub proof fn lemma_all_checked(outcomes: Seq<Result<bool, ErrorCode>>)
    requires
        forall|i: int| 0 <= i < outcomes.len() ==> outcomes[i] is Ok,
    ensures
        first_error(outcomes) is None,
        valid_count(outcomes) <= outcomes.len(),
    decreases outcomes.len(),
{
    if outcomes.len() > 0 {
        lemma_all_checked(outcomes.drop_last());
    }
}

/// The first failed check decides: whatever follows it does not matter.
pub proof fn lemma_first_error_at(outcomes: Seq<Result<bool, ErrorCode>>, k: int)
    requires
        0 <= k < outcomes.len(),
        outcomes[k] is Err,
        forall|i: int| 0 <= i < k ==> outcomes[i] is Ok,
    ensures
        first_error(outcomes) == Some(outcomes[k]->Err_0),
    decreases outcomes.len(),
{
    if k == outcomes.len() - 1 {
        lemma_all_checked(outcomes.drop_last());
    } else {
        lemma_first_error_at(outcomes.drop_last(), k);
    }
}

/// In a list without a first error every check went through.
pub proof fn lemma_no_error_means_ok(outcomes: Seq<Result<bool, ErrorCode>>, j: int)
    requires
        first_error(outcomes) is None,
        0 <= j < outcomes.len(),
    ensures
        outcomes[j] is Ok,
    decreases outcomes.len(),
{
    if j < outcomes.len() - 1 {
        lemma_no_error_means_ok(outcomes.drop_last(), j);
    }
}

/// Tallies positional checks against the threshold: the first error if a
/// check ended in one, else whether at least `required_signatures` checks
/// came out valid.
///
/// Each position is marked as used when it is counted, so that no position
/// can count twice.
pub fn tally_outcomes(
    outcomes: &[Result<bool, ErrorCode>],
    required_signatures: u8,
) -> (out: Result<bool, ErrorCode>)
    ensures
        out == tally(outcomes@, required_signatures),
{
    let n = outcomes.len();
    let mut used_validators: Vec<bool> = vec![false; n];
    let mut valid_signatures: usize = 0;
    let mut i: usize = 0;
    while i < n
        invariant
            i <= n,
            n == outcomes@.len(),
            used_validators@.len() == n,
            forall|j: int| i <= j < n ==> !used_validators@[j],
            first_error(outcomes@.take(i as int)) is None,
            valid_signatures == valid_count(outcomes@.take(i as int)),
            valid_signatures <= i,
        decreases n - i,
    {
        let ghost seen = outcomes@.take(i as int);
        let ghost next = outcomes@.take(i + 1);
        assert(next.drop_last() =~= seen);
        match outcomes[i] {
            Err(e) => {
                proof {
                    assert forall|j: int| 0 <= j < i implies outcomes@[j] is Ok by {
                        lemma_no_error_means_ok(seen, j);
                    }
                    lemma_first_error_at(outcomes@, i as int);
                }
                return Err(e);
            },
            Ok(is_valid) => {
                if is_valid {
                    if used_validators[i] {
                        return Err(ErrorCode::DuplicateValidator);
                    }
                    used_validators.set(i, true);
                    valid_signatures += 1;
                }
            },
        }
        i += 1;
    }
    assert(outcomes@.take(n as int) =~= outcomes@);
    Ok(valid_signatures >= required_signatures as usize)
}

/// Checks every signature against the validator in the same position and
/// tallies the valid ones against `required_signatures`.
///
/// Fewer signature slots than `required_signatures` are
/// `NotEnoughSignatures`; lists of different lengths are
/// `MismatchedSignaturesAndKeys`. The checks then run in order, and the
/// first one that ends in an error ends the call with that error: no slot
/// is skipped, not even one whose validator slot is unused. Otherwise the
/// answer is whether at least `required_signatures` slots verified.
pub fn verify_signatures(
    signatures: &[Signature],
    validator_pubkeys: &[Address],
    message_hash: &[u8; 32],
    required_signatures: u8,
) -> (out: Result<bool, ErrorCode>)
    ensures
        out == quorum_outcome(
            signatures@,
            validator_pubkeys@,
            message_hash@,
            required_signatures,
        ),
{
    if signatures.len() < required_signatures as usize {
        return Err(ErrorCode::NotEnoughSignatures);
    }
    if signatures.len() != validator_pubkeys.len() {
        return Err(ErrorCode::MismatchedSignaturesAndKeys);
    }
    let n = signatures.len();
    let ghost all = pair_outcomes(signatures@, validator_pubkeys@, message_hash@);
    let mut outcomes: Vec<Result<bool, ErrorCode>> = Vec::new();
    let mut i: usize = 0;
    let mut failed = false;
    while i < n && !failed
        invariant
            i <= n,
            n == signatures@.len(),
            n == validator_pubkeys@.len(),
            all == pair_outcomes(signatures@, validator_pubkeys@, message_hash@),
            outcomes@ == all.take(i as int),
            failed ==> i > 0 && all[i - 1] is Err,
            forall|j: int| 0 <= j < i - 1 ==> all[j] is Ok,
            !failed ==> forall|j: int| 0 <= j < i ==> all[j] is Ok,
        decreases n - i,
    {
        let outcome = verify_signature(
            &signatures[i],
            validator_pubkeys[i].as_bytes(),
            message_hash,
        );
        if outcome.is_err() {
            failed = true;
        }
        outcomes.push(outcome);
        i += 1;
    }
    proof {
        if failed {
            lemma_first_error_at(all, i - 1);
            lemma_first_error_at(outcomes@, i - 1);
        } else {
            assert(outcomes@ =~= all);
        }
    }
    tally_outcomes(outcomes.as_slice(), required_signatures)
}

/// The positions whose check came out valid.
pub open spec fn valid_positions(outcomes: Seq<Result<bool, ErrorCode>>) -> Set<int> {
    Set::new(|i: int| 0 <= i < outcomes.len() && outcomes[i] == Ok::<bool, ErrorCode>(true))
}

/// `valid_count` is the number of positions that came out valid; which
/// positions they are plays no part.
pub proof fn lemma_valid_count_is_number_of_positions(outcomes: Seq<Result<bool, ErrorCode>>)
    ensures
        valid_positions(outcomes).finite(),
        valid_count(outcomes) == valid_positions(outcomes).len(),
    decreases outcomes.len(),
{
    if outcomes.len() == 0 {
        assert(valid_positions(outcomes) =~= Set::<int>::empty());
    } else {
        let front = outcomes.drop_last();
        let last = outcomes.len() - 1;
        lemma_valid_count_is_number_of_positions(front);
        if outcomes.last() == Ok::<bool, ErrorCode>(true) {
            assert(valid_positions(outcomes) =~= valid_positions(front).insert(last));
        } else {
            assert(valid_positions(outcomes) =~= valid_positions(front));
        }
    }
}

/// When every positional check goes through, the quorum check answers
/// `true` exactly when at least `required_signatures` positions verify, and
/// `false` when fewer do, whichever positions they are.
pub proof fn lemma_quorum_is_a_count(
    signatures: Seq<Signature>,
    validator_pubkeys: Seq<Address>,
    digest: Seq<u8>,
    required_signatures: u8,
)
    requires
        signatures.len() == validator_pubkeys.len(),
        signatures.len() >= required_signatures,
        forall|i: int|
            0 <= i < signatures.len() ==> signature_outcome(
                signatures[i],
                validator_pubkeys[i]@,
                digest,
            ) is Ok,
    ensures
        valid_positions(pair_outcomes(signatures, validator_pubkeys, digest)).finite(),
        quorum_outcome(signatures, validator_pubkeys, digest, required_signatures) == Ok::<
            bool,
            ErrorCode,
        >(
            valid_positions(pair_outcomes(signatures, validator_pubkeys, digest)).len()
                >= required_signatures,
        ),
{
    let outcomes = pair_outcomes(signatures, validator_pubkeys, digest);
    lemma_all_checked(outcomes);
    lemma_valid_count_is_number_of_positions(outcomes);
}

/// The quorum check never reports a duplicate validator: each position is
/// counted once.
pub proof fn lemma_no_duplicate_reported(
    signatures: Seq<Signature>,
    validator_pubkeys: Seq<Address>,
    digest: Seq<u8>,
    required_signatures: u8,
)
    ensures
        quorum_outcome(signatures, validator_pubkeys, digest, required_signatures) != Err::<
            bool,
            ErrorCode,
        >(ErrorCode::DuplicateValidator),
{
    let outcomes = pair_outcomes(signatures, validator_pubkeys, digest);
    if first_error(outcomes) == Some(ErrorCode::DuplicateValidator) {
        lemma_first_error_is_an_outcome(outcomes);
    }
}

/// The first error of a list is the error of one of its entries.
pub proof fn lemma_first_error_is_an_outcome(outcomes: Seq<Result<bool, ErrorCode>>)
    requires
        first_error(outcomes) is Some,
    ensures
        exists|i: int|
            0 <= i < outcomes.len() && #[trigger] outcomes[i] == Err::<bool, ErrorCode>(
                first_error(outcomes)->Some_0,
            ),
    decreases outcomes.len(),
{
    let front = outcomes.drop_last();
    if outcomes.len() > 0 && first_error(front) is Some {
        lemma_first_error_is_an_outcome(front);
        let i = choose|i: int|
            0 <= i < front.len() && #[trigger] front[i] == Err::<bool, ErrorCode>(
                first_error(front)->Some_0,
            );
        assert(outcomes[i] == front[i]);
    }
}

} // verus!
