//! Arguments of the ledger operations.

use vstd::prelude::*;
use crate::address::Address;

verus! {

/// A partial configuration update: each field that is present replaces the
/// ledger's value, each absent field leaves it alone.
#[derive(Clone, Copy, Debug, PartialEq, Eq)]
pub struct ConfigUpdateArgs {
    pub treasury: Option<Address>,
    /// The new proposed owner.
    pub owner: Option<Address>,
    /// The new tax rate in basis points; zero is refused.
    pub tax: Option<u16>,
    pub paused: Option<bool>,
}

/// A deposit bound for the remote chain.
#[derive(Clone, Copy, Debug, PartialEq, Eq)]
pub struct DepositUSDCArgs {
    /// Gross amount, tax included.
    pub amount: u64,
    /// Recipient on the remote chain.
    pub recipient_evm_address: [u8; 20],
}

/// A withdrawal claim with its signature slots, one per validator slot.
#[derive(Clone, Copy, Debug, PartialEq, Eq)]
pub struct WithdrawUSDCArgs {
    pub amount: u64,
    /// Sender on the remote chain.
    pub sender_evm_address: [u8; 20],
    /// Nonce issued on the remote chain.
    pub nonce: [u8; 32],
    pub r: [[u8; 32]; 16],
    pub s: [[u8; 32]; 16],
    pub v: [u8; 16],
}

} // verus!
