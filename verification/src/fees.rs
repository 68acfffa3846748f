//! Fee sweeps: the tax that deposits left in pool custody goes to the
//! treasury.

use vstd::prelude::*;
use crate::accounts::WithdrawFeesContext;
use crate::custody::{PendingSweep, Transfer};
use crate::error::ErrorCode;
use crate::events::FeesWithdrawn;
use crate::state::{Ledger, PoolState};

verus! {

impl Ledger {
    /// The ledger after its accumulated fees were swept.
    pub open spec fn sweep(self) -> Ledger {
        Ledger { accumulated_fees: 0, ..self }
    }
}

/// What the first step of a fee sweep comes to: the pending sweep of all
/// accumulated fees, or the reason for turning it down.
pub open spec fn sweep_outcome(
    ledger: Ledger,
    ctx: WithdrawFeesContext,
    now: i64,
) -> Result<PendingSweep, ErrorCode> {
    if ledger.paused {
        Err(ErrorCode::PoolPaused)
    } else if ctx.owner != ledger.owner {
        Err(ErrorCode::Unauthorized)
    } else if ctx.mint_account != ledger.usdc_mint {
        Err(ErrorCode::WrongToken)
    } else {
        Ok(
            PendingSweep {
                transfer: Transfer {
                    from: ctx.pool_ata,
                    to: ctx.treasury_ata,
                    authority: ctx.pool_state,
                    amount: ledger.accumulated_fees,
                },
                record: FeesWithdrawn {
                    address: ctx.pool_state,
                    recipient: ctx.treasury,
                    amount: ledger.accumulated_fees,
                    timestamp: now,
                },
            },
        )
    }
}

/// First step of a fee sweep: checks the call against the ledger. Only the
/// owner may sweep, and only while the pool is not paused. The ledger is not
/// changed; the answer names the transfer of all accumulated fees to the
/// treasury's custody account and the record to publish after it.
pub fn withdraw_fees(
    state: &PoolState,
    ctx: &WithdrawFeesContext,
    now: i64,
) -> (out: Result<PendingSweep, ErrorCode>)
    ensures
        out == sweep_outcome(state@, *ctx, now),
{
    if state.paused {
        return Err(ErrorCode::PoolPaused);
    }
    if ctx.owner != state.owner {
        return Err(ErrorCode::Unauthorized);
    }
    if ctx.mint_account != state.usdc_mint {
        return Err(ErrorCode::WrongToken);
    }
    Ok(
        PendingSweep {
            transfer: Transfer {
                from: ctx.pool_ata,
                to: ctx.treasury_ata,
                authority: ctx.pool_state,
                amount: state.accumulated_fees,
            },
            record: FeesWithdrawn {
                address: ctx.pool_state,
                recipient: ctx.treasury,
                amount: state.accumulated_fees,
                timestamp: now,
            },
        },
    )
}

/// Second step of a fee sweep: takes the host's report on the transfer.
/// After a transfer that went through, the accumulated fees are reset to
/// zero and the record is released. After a failed transfer nothing changes.
pub fn settle_fees(
    state: &mut PoolState,
    pending: &PendingSweep,
    transferred: bool,
) -> (out: Option<FeesWithdrawn>)
    ensures
        transferred ==> out == Some(pending.record) && final(state)@ == old(state)@.sweep(),
        !transferred ==> out is None && *final(state) == *old(state),
        old(state).wf() ==> final(state).wf(),
{
    if !transferred {
        return None;
    }
    state.accumulated_fees = 0;
    Some(pending.record)
}

/// Right after a sweep has been settled, a second sweep moves nothing.
pub proof fn lemma_second_sweep_is_empty(
    ledger: Ledger,
    ctx: WithdrawFeesContext,
    first: i64,
    second: i64,
)
    requires
        sweep_outcome(ledger, ctx, first) is Ok,
    ensures
        sweep_outcome(ledger, ctx, first)->Ok_0.transfer.amount == ledger.accumulated_fees,
        sweep_outcome(ledger.sweep(), ctx, second) is Ok,
        sweep_outcome(ledger.sweep(), ctx, second)->Ok_0.transfer.amount == 0,
{
}

} // verus!
