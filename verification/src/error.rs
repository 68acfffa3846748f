//! The ways a bridge operation can be turned down.

use vstd::prelude::*;

verus! {

/// Why an operation was rejected. A rejected operation changes nothing.
#[derive(Clone, Copy, Debug, PartialEq, Eq, Structural)]
pub enum ErrorCode {
    /// All validator slots are occupied.
    TooManyValidators,
    /// The address is not a registered validator.
    ValidatorDoesNotExist,
    /// The caller is not the proposed owner.
    InvalidOwnershipChange,
    /// The pool is paused.
    PoolPaused,
    /// The token is not the one the pool holds in custody.
    WrongToken,
    /// The tax rate must be at least one basis point.
    ZeroTax,
    /// The tax arithmetic overflowed.
    TaxFailed,
    /// The claim could not be hashed.
    InvalidMessageHash,
    /// A signature is malformed.
    InvalidSignature,
    /// A validator address is not a public key.
    InvalidPublicKey,
    /// Fewer signatures were supplied than the threshold asks for.
    NotEnoughSignatures,
    /// The signature list and the validator list differ in length.
    MismatchedSignaturesAndKeys,
    /// A validator was counted twice.
    DuplicateValidator,
    /// The validator account is not acceptable.
    InvalidValidatorAccount,
    /// The withdrawal claim is not attested by a quorum of validators.
    FailedToValidate,
    /// The caller is not allowed to perform the operation.
    Unauthorized,
}

} // verus!
