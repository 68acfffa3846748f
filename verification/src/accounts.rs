//! The accounts each operation is called with, by address.
//!
//! The host resolves and authenticates accounts; the operations read only
//! their addresses.

use vstd::prelude::*;
use crate::address::Address;

verus! {

/// Accounts of `initialize`.
#[derive(Clone, Copy, Debug, PartialEq, Eq)]
pub struct Initialize {
    /// The caller, who becomes owner and first validator.
    pub owner: Address,
    /// Address of the ledger record being created.
    pub pool_state: Address,
    pub treasury: Address,
    pub usdc_mint: Address,
    /// Seed that binds the record to its storage address.
    pub bump: u8,
}

/// Accounts of `update_state`.
#[derive(Clone, Copy, Debug, PartialEq, Eq)]
pub struct UpdateStateContext {
    /// The caller.
    pub owner: Address,
    pub pool_state: Address,
}

/// Accounts of `accept_ownership`.
#[derive(Clone, Copy, Debug, PartialEq, Eq)]
pub struct AcceptOwnershipContext {
    /// The caller.
    pub signer: Address,
    pub pool_state: Address,
}

/// Accounts of `add_validator`.
#[derive(Clone, Copy, Debug, PartialEq, Eq)]
pub struct AddValidatorContext {
    /// The caller.
    pub owner: Address,
    pub pool_state: Address,
    pub new_validator: Address,
}

/// Accounts of `remove_validator`.
#[derive(Clone, Copy, Debug, PartialEq, Eq)]
pub struct RemoveValidatorContext {
    /// The caller.
    pub owner: Address,
    pub pool_state: Address,
    pub old_validator: Address,
}

/// Accounts of `deposit_usdc`.
#[derive(Clone, Copy, Debug, PartialEq, Eq)]
pub struct DepositUSDCContext {
    /// The caller, who pays in.
    pub depositor: Address,
    pub pool_state: Address,
    /// The token being deposited.
    pub mint_account: Address,
    /// Custody account the tokens come from.
    pub depositor_ata: Address,
    /// Custody account of the pool.
    pub pool_ata: Address,
}

/// Accounts of `withdraw_usdc`.
#[derive(Clone, Copy, Debug, PartialEq, Eq)]
pub struct WithdrawUSDCContext {
    /// The caller.
    pub payer: Address,
    pub pool_state: Address,
    /// The token being withdrawn.
    pub mint_account: Address,
    /// Custody account the tokens go to.
    pub recipient_ata: Address,
    /// Custody account of the pool.
    pub pool_ata: Address,
}

/// Accounts of `withdraw_fees`.
#[derive(Clone, Copy, Debug, PartialEq, Eq)]
pub struct WithdrawFeesContext {
    /// The caller.
    pub owner: Address,
    pub pool_state: Address,
    pub treasury: Address,
    /// The token being swept.
    pub mint_account: Address,
    /// Custody account of the treasury.
    pub treasury_ata: Address,
    /// Custody account of the pool.
    pub pool_ata: Address,
}

} // verus!
