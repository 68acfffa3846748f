//! Custody transfers, which the host carries out between the two halves of a
//! financial operation.
//!
//! An operation that moves tokens runs in two steps. The first step checks
//! the call against the ledger, without changing it, and answers with the
//! transfer to make and the record to publish afterwards. The host performs
//! the transfer. The second step takes the host's report: only after a
//! transfer that went through does it change the ledger and release the
//! record.

use vstd::prelude::*;
use crate::address::Address;
use crate::events::{FeesWithdrawn, USDCDeposited, USDCWithdrawn};

verus! {

/// A movement of tokens between two custody accounts.
#[derive(Clone, Copy, Debug, PartialEq, Eq)]
pub struct Transfer {
    /// Custody account that is debited.
    pub from: Address,
    /// Custody account that is credited.
    pub to: Address,
    /// The party that authorizes the debit.
    pub authority: Address,
    pub amount: u64,
}

/// A deposit that was accepted and awaits its custody transfer.
#[derive(Clone, Copy, Debug, PartialEq, Eq)]
pub struct PendingDeposit {
    pub transfer: Transfer,
    /// The record to publish once the transfer has gone through.
    pub record: USDCDeposited,
}

/// A withdrawal that was authorized and awaits its custody transfer.
#[derive(Clone, Copy, Debug, PartialEq, Eq)]
pub struct PendingWithdrawal {
    pub transfer: Transfer,
    /// The record to publish once the transfer has gone through.
    pub record: USDCWithdrawn,
}

/// A fee sweep that was accepted and awaits its custody transfer.
#[derive(Clone, Copy, Debug, PartialEq, Eq)]
pub struct PendingSweep {
    pub transfer: Transfer,
    /// The record to publish once the transfer has gone through.
    pub record: FeesWithdrawn,
}

} // verus!
