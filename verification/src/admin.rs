//! Creation of the ledger, configuration updates and the two-step transfer
//! of ownership.

use vstd::prelude::*;
use crate::accounts::{AcceptOwnershipContext, Initialize, UpdateStateContext};
use crate::address::Address;
use crate::args::ConfigUpdateArgs;
use crate::error::ErrorCode;
use crate::events::{OwnerChanged, PoolCreated, PoolStateUpdated, ValidatorAdded};
use crate::state::{lemma_prefix_is_compact, Ledger, PoolState, MAX_VALIDATORS};

verus! {

/// The only address that may create a ledger.
pub const AUTHORIZED_LAUNCHER: [u8; 32] = [
    122, 130, 148, 42, 130, 101, 245, 9, 18, 251, 17, 48, 189, 112, 117, 188,
    42, 148, 7, 186, 95, 10, 206, 15, 63, 95, 225, 3, 230, 199, 204, 87,
];

/// The only address that may create a ledger, as an [`Address`].
pub fn authorized_launcher() -> (launcher: Address)
    ensures
        launcher.bytes == AUTHORIZED_LAUNCHER,
        !launcher.is_empty(),
{
    let launcher = Address { bytes: AUTHORIZED_LAUNCHER };
    assert(launcher.bytes[0] == 122);
    launcher
}

impl Ledger {
    /// The ledger right after creation: the creator owns it and is its only
    /// validator, nothing has moved yet.
    pub open spec fn initial(ctx: Initialize, tax: u16) -> Ledger {
        Ledger {
            owner: ctx.owner,
            proposed_owner: ctx.owner,
            usdc_mint: ctx.usdc_mint,
            paused: false,
            validators: Seq::new(
                MAX_VALIDATORS as nat,
                |i: int|
                    if i == 0 {
                        ctx.owner
                    } else {
                        Address::spec_empty()
                    },
            ),
            required_signatures: 1,
            tax,
            total_volume: 0,
            accumulated_fees: 0,
            treasury: ctx.treasury,
            bump: ctx.bump,
        }
    }

    /// The ledger after a configuration update.
    pub open spec fn update(self, args: ConfigUpdateArgs) -> Ledger {
        Ledger {
            treasury: match args.treasury {
                Some(treasury) => treasury,
                None => self.treasury,
            },
            proposed_owner: match args.owner {
                Some(proposed_owner) => proposed_owner,
                None => self.proposed_owner,
            },
            tax: match args.tax {
                Some(tax) => tax,
                None => self.tax,
            },
            paused: match args.paused {
                Some(paused) => paused,
                None => self.paused,
            },
            ..self
        }
    }

    /// The ledger after `signer` has taken ownership over.
    pub open spec fn accept_ownership(self, signer: Address) -> Ledger {
        Ledger { owner: signer, proposed_owner: Address::spec_empty(), ..self }
    }
}

/// What `initialize` comes to.
pub open spec fn initialize_outcome(
    ctx: Initialize,
    tax: u16,
    now: i64,
) -> Result<(Ledger, PoolCreated, ValidatorAdded), ErrorCode> {
    if ctx.owner.bytes != AUTHORIZED_LAUNCHER {
        Err(ErrorCode::Unauthorized)
    } else {
        Ok(
            (
                Ledger::initial(ctx, tax),
                PoolCreated {
                    address: ctx.pool_state,
                    treasury: ctx.treasury,
                    tax,
                    timestamp: now,
                },
                ValidatorAdded {
                    pool_state: ctx.pool_state,
                    address: ctx.owner,
                    required_validators: 1,
                    timestamp: now,
                },
            ),
        )
    }
}

/// What `update_state` comes to.
pub open spec fn update_state_outcome(
    ledger: Ledger,
    ctx: UpdateStateContext,
    args: ConfigUpdateArgs,
    now: i64,
) -> Result<(Ledger, PoolStateUpdated), ErrorCode> {
    if ctx.owner != ledger.owner {
        Err(ErrorCode::Unauthorized)
    } else if args.tax == Some(0u16) {
        Err(ErrorCode::ZeroTax)
    } else {
        let next = ledger.update(args);
        Ok(
            (
                next,
                PoolStateUpdated {
                    address: ctx.pool_state,
                    proposed_owner: next.proposed_owner,
                    treasury: next.treasury,
                    tax: next.tax,
                    paused: next.paused,
                    timestamp: now,
                },
            ),
        )
    }
}

/// What `accept_ownership` comes to.
pub open spec fn accept_ownership_outcome(
    ledger: Ledger,
    ctx: AcceptOwnershipContext,
    now: i64,
) -> Result<(Ledger, OwnerChanged), ErrorCode> {
    if ctx.signer != ledger.proposed_owner {
        Err(ErrorCode::InvalidOwnershipChange)
    } else {
        Ok(
            (
                ledger.accept_ownership(ctx.signer),
                OwnerChanged { address: ctx.pool_state, new_owner: ctx.signer, timestamp: now },
            ),
        )
    }
}

/// Creates the ledger of a bridge instance. Only the authorized launcher may
/// do this; it becomes the owner and the first validator.
pub fn initialize(
    ctx: &Initialize,
    tax: u16,
    now: i64,
) -> (out: Result<(PoolState, PoolCreated, ValidatorAdded), ErrorCode>)
    ensures
        (match initialize_outcome(*ctx, tax, now) {
            Ok((ledger, created, added)) => {
                &&& out is Ok
                &&& out->Ok_0.0@ == ledger
                &&& out->Ok_0.0.wf()
                &&& out->Ok_0.1 == created
                &&& out->Ok_0.2 == added
            },
            Err(e) => out == Err::<(PoolState, PoolCreated, ValidatorAdded), ErrorCode>(e),
        }),
{
    let launcher = authorized_launcher();
    if ctx.owner != launcher {
        return Err(ErrorCode::Unauthorized);
    }
    let mut pool_state = PoolState {
        owner: ctx.owner,
        proposed_owner: ctx.owner,
        usdc_mint: ctx.usdc_mint,
        paused: false,
        validators: [Address::empty();16],
        required_signatures: 1,
        total_volume: 0,
        tax,
        accumulated_fees: 0,
        treasury: ctx.treasury,
        bump: ctx.bump,
    };
    pool_state.validators[0] = ctx.owner;
    proof {
        assert(pool_state.validators@ =~= Ledger::initial(*ctx, tax).validators);
        lemma_initial_ledger_wf(*ctx, tax);
    }
    let created = PoolCreated {
        address: ctx.pool_state,
        treasury: pool_state.treasury,
        tax: pool_state.tax,
        timestamp: now,
    };
    let added = ValidatorAdded {
        address: ctx.owner,
        pool_state: ctx.pool_state,
        required_validators: pool_state.required_signatures,
        timestamp: now,
    };
    Ok((pool_state, created, added))
}

/// Replaces the configuration fields that `args` names. Only the owner may
/// do this, and the tax rate cannot be set to zero.
pub fn update_state(
    state: &mut PoolState,
    ctx: &UpdateStateContext,
    args: &ConfigUpdateArgs,
    now: i64,
) -> (out: Result<PoolStateUpdated, ErrorCode>)
    ensures
        (match update_state_outcome(old(state)@, *ctx, *args, now) {
            Ok((next, event)) => out == Ok::<PoolStateUpdated, ErrorCode>(event) && final(state)@
                == next,
            Err(e) => out == Err::<PoolStateUpdated, ErrorCode>(e) && *final(state) == *old(state),
        }),
        old(state).wf() ==> final(state).wf(),
{
    if ctx.owner != state.owner {
        return Err(ErrorCode::Unauthorized);
    }
    if let Some(new_tax) = args.tax {
        if new_tax == 0 {
            return Err(ErrorCode::ZeroTax);
        }
    }
    if let Some(new_treasury) = args.treasury {
        state.treasury = new_treasury;
    }
    if let Some(proposed_owner) = args.owner {
        state.proposed_owner = proposed_owner;
    }
    if let Some(new_tax) = args.tax {
        state.tax = new_tax;
    }
    if let Some(new_paused) = args.paused {
        state.paused = new_paused;
    }
    Ok(
        PoolStateUpdated {
            address: ctx.pool_state,
            treasury: state.treasury,
            proposed_owner: state.proposed_owner,
            tax: state.tax,
            paused: state.paused,
            timestamp: now,
        },
    )
}

/// Hands ownership to the caller, who must be the proposed owner, and
/// clears the proposal.
pub fn accept_ownership(
    state: &mut PoolState,
    ctx: &AcceptOwnershipContext,
    now: i64,
) -> (out: Result<OwnerChanged, ErrorCode>)
    ensures
        (match accept_ownership_outcome(old(state)@, *ctx, now) {
            Ok((next, event)) => out == Ok::<OwnerChanged, ErrorCode>(event) && final(state)@
                == next,
            Err(e) => out == Err::<OwnerChanged, ErrorCode>(e) && *final(state) == *old(state),
        }),
        old(state).wf() ==> final(state).wf(),
{
    if ctx.signer == state.proposed_owner {
        state.owner = ctx.signer;
        state.proposed_owner = Address::empty();
        Ok(OwnerChanged { address: ctx.pool_state, new_owner: ctx.signer, timestamp: now })
    } else {
        Err(ErrorCode::InvalidOwnershipChange)
    }
}

/// A ledger created by an owner other than the empty address satisfies the
/// registry invariant: its only validator is the owner, in the first slot.
pub proof fn lemma_initial_ledger_wf(ctx: Initialize, tax: u16)
    requires
        !ctx.owner.is_empty(),
    ensures
        Ledger::initial(ctx, tax).wf(),
        Ledger::initial(ctx, tax).validators[0] == ctx.owner,
{
    lemma_prefix_is_compact(Ledger::initial(ctx, tax).validators, 1);
}

/// An update never leaves the tax rate at zero unless it was zero before
/// and the update does not name a rate.
pub proof fn lemma_update_keeps_tax_positive(
    ledger: Ledger,
    ctx: UpdateStateContext,
    args: ConfigUpdateArgs,
    now: i64,
)
    requires
        update_state_outcome(ledger, ctx, args, now) is Ok,
        ledger.tax >= 1 || args.tax is Some,
    ensures
        update_state_outcome(ledger, ctx, args, now)->Ok_0.0.tax >= 1,
{
}

/// Updating twice with the same arguments ends where updating once ends:
/// the second call is accepted and leaves the ledger as the first left it.
pub proof fn lemma_update_state_idempotent(
    ledger: Ledger,
    ctx: UpdateStateContext,
    args: ConfigUpdateArgs,
    first: i64,
    second: i64,
)
    requires
        update_state_outcome(ledger, ctx, args, first) is Ok,
    ensures
        update_state_outcome(update_state_outcome(ledger, ctx, args, first)->Ok_0.0, ctx, args, second)
            is Ok,
        update_state_outcome(
            update_state_outcome(ledger, ctx, args, first)->Ok_0.0,
            ctx,
            args,
            second,
        )->Ok_0.0 == update_state_outcome(ledger, ctx, args, first)->Ok_0.0,
        ledger.update(args).update(args) == ledger.update(args),
{
}

} // verus!
