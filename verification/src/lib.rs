//! The authorization core of a two-way token bridge.
//!
//! The crate decides, for every transfer across the bridge, whether custody
//! of tokens may move, and keeps the ledger that records it:
//!
//! - [`message`] encodes a transfer claim into the bytes and the digest
//!   that both chains compute alike;
//! - [`quorum`] checks the signatures on a digest against the validators,
//!   position by position, and tallies them against the threshold;
//! - [`registry`] keeps the validators in the first slots of the ledger;
//! - [`admin`] creates the ledger, updates its configuration and passes
//!   ownership on;
//! - [`deposit`], [`withdraw`] and [`fees`] are the operations that move
//!   tokens; each runs in two steps around a custody transfer that the host
//!   carries out, see [`custody`].
//!
//! Every operation takes the ledger as an explicit value. An operation that
//! is turned down leaves it untouched.

pub mod accounts;
pub mod address;
pub mod admin;
pub mod args;
pub mod bytes;
pub mod custody;
pub mod deposit;
pub mod error;
pub mod events;
pub mod fees;
pub mod message;
pub mod quorum;
pub mod registry;
pub mod state;
pub mod withdraw;

pub use crate::accounts::{AcceptOwnershipContext, AddValidatorContext, DepositUSDCContext,
    Initialize, RemoveValidatorContext, UpdateStateContext, WithdrawFeesContext,
    WithdrawUSDCContext};
pub use crate::address::Address;
pub use crate::admin::{accept_ownership, authorized_launcher, initialize, update_state,
    AUTHORIZED_LAUNCHER};
pub use crate::args::{ConfigUpdateArgs, DepositUSDCArgs, WithdrawUSDCArgs};
pub use crate::custody::{PendingDeposit, PendingSweep, PendingWithdrawal, Transfer};
pub use crate::deposit::{compute_tax, correlation_nonce, deposit_usdc, settle_deposit};
pub use crate::error::ErrorCode;
pub use crate::events::{FeesWithdrawn, OwnerChanged, PoolCreated, PoolStateUpdated,
    USDCDeposited, USDCWithdrawn, ValidatorAdded, ValidatorRemoved};
pub use crate::fees::{settle_fees, withdraw_fees};
pub use crate::message::{build_message, encode_message, right_justify};
pub use crate::quorum::{signature_verdict, tally_outcomes, verify_signature, verify_signatures,
    Signature};
pub use crate::registry::{add_validator, find_validator, remove_validator};
pub use crate::state::{PoolState, MAX_SIGNATURES, MAX_VALIDATORS};
pub use crate::withdraw::{authorize_withdrawal, collect_signatures, settle_withdrawal,
    withdraw_usdc};
