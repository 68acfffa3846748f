//! Records that the ledger operations hand back for the host to publish.

use vstd::prelude::*;
use crate::address::Address;

verus! {

/// A fresh ledger was created.
#[derive(Clone, Copy, Debug, PartialEq, Eq)]
pub struct PoolCreated {
    /// Address of the ledger record.
    pub address: Address,
    pub treasury: Address,
    /// Tax rate in basis points.
    pub tax: u16,
    pub timestamp: i64,
}

/// A validator joined the registry.
#[derive(Clone, Copy, Debug, PartialEq, Eq)]
pub struct ValidatorAdded {
    /// Address of the ledger record.
    pub pool_state: Address,
    /// The validator.
    pub address: Address,
    /// Signature threshold after the change.
    pub required_validators: u8,
    pub timestamp: i64,
}

/// A validator left the registry.
#[derive(Clone, Copy, Debug, PartialEq, Eq)]
pub struct ValidatorRemoved {
    /// Address of the ledger record.
    pub pool_state: Address,
    /// The validator.
    pub address: Address,
    /// Signature threshold after the change.
    pub required_validators: u8,
    pub timestamp: i64,
}

/// The configuration as it stands after an update.
#[derive(Clone, Copy, Debug, PartialEq, Eq)]
pub struct PoolStateUpdated {
    /// Address of the ledger record.
    pub address: Address,
    pub proposed_owner: Address,
    pub treasury: Address,
    pub tax: u16,
    pub paused: bool,
    pub timestamp: i64,
}

/// Ownership passed to the proposed owner.
#[derive(Clone, Copy, Debug, PartialEq, Eq)]
pub struct OwnerChanged {
    /// Address of the ledger record.
    pub address: Address,
    pub new_owner: Address,
    pub timestamp: i64,
}

/// Tokens entered pool custody, bound for the remote chain.
#[derive(Clone, Copy, Debug, PartialEq, Eq)]
pub struct USDCDeposited {
    /// Address of the ledger record.
    pub address: Address,
    pub depositor: Address,
    /// Recipient on the remote chain.
    pub recipient_evm_address: [u8; 20],
    /// Amount after tax.
    pub amount: u64,
    /// Tax retained in pool custody.
    pub tax: u64,
    /// Correlation value for relayers; no replay protection.
    pub nonce: u64,
    pub timestamp: i64,
}

/// Tokens left pool custody on an attested claim.
#[derive(Clone, Copy, Debug, PartialEq, Eq)]
pub struct USDCWithdrawn {
    /// Address of the ledger record.
    pub address: Address,
    pub recipient: Address,
    pub amount: u64,
    pub timestamp: i64,
}

/// Accumulated tax was swept to the treasury.
#[derive(Clone, Copy, Debug, PartialEq, Eq)]
pub struct FeesWithdrawn {
    /// Address of the ledger record.
    pub address: Address,
    pub recipient: Address,
    pub amount: u64,
    pub timestamp: i64,
}

} // verus!
