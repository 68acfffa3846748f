//! Withdrawals: a claim from the remote chain, attested by a quorum of
//! validators, releases tokens from pool custody.

use vstd::prelude::*;
use crate::accounts::WithdrawUSDCContext;
use crate::address::Address;
use crate::args::WithdrawUSDCArgs;
use crate::custody::{PendingWithdrawal, Transfer};
use crate::error::ErrorCode;
use crate::events::USDCWithdrawn;
use crate::message::{build_message, message_digest};
use crate::quorum::{quorum_outcome, verify_signatures, Signature};
use crate::state::{Ledger, PoolState, MAX_SIGNATURES};

verus! {

/// The signature slots of a claim, slot `i` made of the `i`-th entries of
/// the three arrays.
pub open spec fn signatures_of(args: WithdrawUSDCArgs) -> Seq<Signature> {
    Seq::new(
        MAX_SIGNATURES as nat,
        |i: int| Signature { r: args.r[i], s: args.s[i], v: args.v[i] },
    )
}

/// The digest that the validators of a claim have signed.
pub open spec fn claim_digest(recipient: Address, args: WithdrawUSDCArgs) -> Seq<u8> {
    message_digest(args.nonce@, args.amount, args.sender_evm_address@, recipient@)
}

/// The verdict of the quorum check on a claim, against the validators and
/// the threshold of the ledger.
pub open spec fn claim_verdict(
    ledger: Ledger,
    recipient: Address,
    args: WithdrawUSDCArgs,
) -> Result<bool, ErrorCode> {
    quorum_outcome(
        signatures_of(args),
        ledger.validators,
        claim_digest(recipient, args),
        ledger.required_signatures,
    )
}

/// What the first step of a withdrawal comes to once the quorum check has
/// given `verdict`: the pending withdrawal, or the reason for turning the
/// claim down. Any verdict other than a reached quorum, errors included,
/// fails the claim as not validated.
pub open spec fn authorization_outcome(
    ledger: Ledger,
    ctx: WithdrawUSDCContext,
    recipient: Address,
    args: WithdrawUSDCArgs,
    verdict: Result<bool, ErrorCode>,
    now: i64,
) -> Result<PendingWithdrawal, ErrorCode> {
    if ledger.paused {
        Err(ErrorCode::PoolPaused)
    } else if ctx.mint_account != ledger.usdc_mint {
        Err(ErrorCode::WrongToken)
    } else if verdict != Ok::<bool, ErrorCode>(true) {
        Err(ErrorCode::FailedToValidate)
    } else {
        Ok(
            PendingWithdrawal {
                transfer: Transfer {
                    from: ctx.pool_ata,
                    to: ctx.recipient_ata,
                    authority: ctx.pool_state,
                    amount: args.amount,
                },
                record: USDCWithdrawn {
                    address: ctx.pool_state,
                    recipient,
                    amount: args.amount,
                    timestamp: now,
                },
            },
        )
    }
}

/// What the first step of a withdrawal comes to.
pub open spec fn withdraw_outcome(
    ledger: Ledger,
    ctx: WithdrawUSDCContext,
    recipient: Address,
    args: WithdrawUSDCArgs,
    now: i64,
) -> Result<PendingWithdrawal, ErrorCode> {
    authorization_outcome(ledger, ctx, recipient, args, claim_verdict(ledger, recipient, args), now)
}

/// Puts the signature slots of a claim together from its three arrays.
pub fn collect_signatures(args: &WithdrawUSDCArgs) -> (signatures: [Signature; 16])
    ensures
        signatures@ == signatures_of(*args),
{
    let mut signatures: [Signature; 16] = [Signature { r: [0u8;32], s: [0u8;32], v: 0 };16];
    let mut i: usize = 0;
    while i < MAX_SIGNATURES
        invariant
            i <= MAX_SIGNATURES,
            forall|j: int|
                0 <= j < i ==> signatures@[j] == (Signature {
                    r: args.r[j],
                    s: args.s[j],
                    v: args.v[j],
                }),
        decreases MAX_SIGNATURES - i,
    {
        signatures[i] = Signature { r: args.r[i], s: args.s[i], v: args.v[i] };
        i += 1;
    }
    signatures
}

/// Decides a withdrawal on the verdict of the quorum check. The ledger is
/// not changed; the answer names the transfer out of pool custody and the
/// record to publish after it.
pub fn authorize_withdrawal(
    state: &PoolState,
    ctx: &WithdrawUSDCContext,
    recipient: Address,
    args: &WithdrawUSDCArgs,
    verdict: Result<bool, ErrorCode>,
    now: i64,
) -> (out: Result<PendingWithdrawal, ErrorCode>)
    ensures
        out == authorization_outcome(state@, *ctx, recipient, *args, verdict, now),
{
    if state.paused {
        return Err(ErrorCode::PoolPaused);
    }
    if ctx.mint_account != state.usdc_mint {
        return Err(ErrorCode::WrongToken);
    }
    let verified = match verdict {
        Ok(verified) => verified,
        Err(_) => false,
    };
    if verified {
        Ok(
            PendingWithdrawal {
                transfer: Transfer {
                    from: ctx.pool_ata,
                    to: ctx.recipient_ata,
                    authority: ctx.pool_state,
                    amount: args.amount,
                },
                record: USDCWithdrawn {
                    address: ctx.pool_state,
                    recipient,
                    amount: args.amount,
                    timestamp: now,
                },
            },
        )
    } else {
        Err(ErrorCode::FailedToValidate)
    }
}

/// First step of a withdrawal: hashes the claim, checks its signatures
/// against the validators of the ledger, slot by slot, and decides. The
/// ledger is not changed.
pub fn withdraw_usdc(
    state: &PoolState,
    ctx: &WithdrawUSDCContext,
    recipient: Address,
    args: &WithdrawUSDCArgs,
    now: i64,
) -> (out: Result<PendingWithdrawal, ErrorCode>)
    ensures
        out == withdraw_outcome(state@, *ctx, recipient, *args, now),
{
    if state.paused {
        return Err(ErrorCode::PoolPaused);
    }
    if ctx.mint_account != state.usdc_mint {
        return Err(ErrorCode::WrongToken);
    }
    let message = build_message(&args.nonce, &args.amount, &args.sender_evm_address, &recipient);
    let signatures = collect_signatures(args);
    let verdict = verify_signatures(
        signatures.as_slice(),
        state.validators.as_slice(),
        &message,
        state.required_signatures,
    );
    authorize_withdrawal(state, ctx, recipient, args, verdict, now)
}

/// Second step of a withdrawal: takes the host's report on the transfer.
/// After a transfer that went through, the amount is added to the total
/// volume and the record is released. After a failed transfer nothing
/// changes.
pub fn settle_withdrawal(
    state: &mut PoolState,
    pending: &PendingWithdrawal,
    transferred: bool,
) -> (out: Option<USDCWithdrawn>)
    ensures
        transferred ==> out == Some(pending.record) && final(state)@ == old(state)@.add_volume(
            pending.transfer.amount,
        ),
        !transferred ==> out is None && *final(state) == *old(state),
        old(state).wf() ==> final(state).wf(),
{
    if !transferred {
        return None;
    }
    state.record_volume(pending.transfer.amount);
    Some(pending.record)
}

} // verus!
