//! Deposits: tokens enter pool custody, the tax stays in the pool until it
//! is swept, and a record tells relayers what to mint on the remote chain.

use vstd::prelude::*;
use vstd::std_specs::hash::DefaultHasherAdditionalSpecFns;
use std::collections::hash_map::DefaultHasher;
use std::hash::Hasher;
use crate::accounts::DepositUSDCContext;
use crate::address::Address;
use crate::args::DepositUSDCArgs;
use crate::bytes::{i64_le_bytes, le_bytes, twos_complement, u64_le_bytes};
use crate::custody::{PendingDeposit, Transfer};
use crate::error::ErrorCode;
use crate::events::USDCDeposited;
use crate::state::{Ledger, PoolState};

verus! {

/// Basis points in the whole.
pub const BPS_DENOMINATOR: u64 = 10000;

/// The tax on `amount` at `tax_bps` basis points, rounded down.
pub open spec fn tax_amount(amount: u64, tax_bps: u16) -> nat {
    (amount as nat * tax_bps as nat) / 10000
}

/// The tax on `amount` and what is left of it. There is no split when the
/// product `amount * tax_bps` does not fit in 64 bits, nor when the tax
/// exceeds the amount.
pub open spec fn tax_split(amount: u64, tax_bps: u16) -> Option<(u64, u64)> {
    if amount as nat * tax_bps as nat > u64::MAX {
        None
    } else if tax_amount(amount, tax_bps) > amount {
        None
    } else {
        Some((tax_amount(amount, tax_bps) as u64, (amount - tax_amount(amount, tax_bps)) as u64))
    }
}

/// The byte strings that are fed to the hasher for a correlation nonce, in
/// order: depositor, pool custody account, time, remote recipient, amount.
/// Addresses are preceded by their length; lengths and numbers are eight
/// bytes, least significant first.
pub open spec fn nonce_input(
    depositor: Address,
    pool_custody: Address,
    timestamp: i64,
    recipient: Seq<u8>,
    amount: u64,
) -> Seq<Seq<u8>> {
    seq![
        le_bytes(32, 8),
        depositor@,
        le_bytes(32, 8),
        pool_custody@,
        le_bytes(twos_complement(timestamp), 8),
        le_bytes(20, 8),
        recipient,
        le_bytes(amount as nat, 8),
    ]
}

/// The correlation nonce of a deposit: the value that the standard
/// library's default hasher gives for [`nonce_input`].
pub open spec fn correlation_nonce_of(
    depositor: Address,
    pool_custody: Address,
    timestamp: i64,
    recipient: Seq<u8>,
    amount: u64,
) -> u64 {
    DefaultHasher::spec_finish(nonce_input(depositor, pool_custody, timestamp, recipient, amount))
}

impl Ledger {
    /// The ledger after a deposit of `amount` that carried `tax`: the tax is
    /// added to the accumulated fees, and the amount to the total volume
    /// unless the total would no longer fit in 64 bits.
    pub open spec fn credit_deposit(self, amount: u64, tax: u64) -> Ledger {
        Ledger {
            accumulated_fees: (self.accumulated_fees + tax) as u64,
            total_volume: self.add_volume(amount).total_volume,
            ..self
        }
    }
}

/// What the first step of a deposit comes to: the pending deposit, or the
/// reason for turning it down.
pub open spec fn deposit_outcome(
    ledger: Ledger,
    ctx: DepositUSDCContext,
    args: DepositUSDCArgs,
    now: i64,
) -> Result<PendingDeposit, ErrorCode> {
    if ledger.paused {
        Err(ErrorCode::PoolPaused)
    } else if ctx.mint_account != ledger.usdc_mint {
        Err(ErrorCode::WrongToken)
    } else {
        match tax_split(args.amount, ledger.tax) {
            None => Err(ErrorCode::TaxFailed),
            Some((tax, net)) => Ok(
                PendingDeposit {
                    transfer: Transfer {
                        from: ctx.depositor_ata,
                        to: ctx.pool_ata,
                        authority: ctx.depositor,
                        amount: args.amount,
                    },
                    record: USDCDeposited {
                        address: ctx.pool_state,
                        depositor: ctx.depositor,
                        recipient_evm_address: args.recipient_evm_address,
                        amount: net,
                        tax,
                        nonce: correlation_nonce_of(
                            ctx.depositor,
                            ctx.pool_ata,
                            now,
                            args.recipient_evm_address@,
                            args.amount,
                        ),
                        timestamp: now,
                    },
                },
            ),
        }
    }
}

/// Splits `amount` into the tax at `tax_bps` basis points and the rest.
pub fn compute_tax(amount: u64, tax_bps: u16) -> (out: Result<(u64, u64), ErrorCode>)
    ensures
        (match tax_split(amount, tax_bps) {
            Some(split) => out == Ok::<(u64, u64), ErrorCode>(split),
            None => out == Err::<(u64, u64), ErrorCode>(ErrorCode::TaxFailed),
        }),
{
    let product = match amount.checked_mul(tax_bps as u64) {
        Some(product) => product,
        None => {
            return Err(ErrorCode::TaxFailed);
        },
    };
    let tax_amount = match product.checked_div(BPS_DENOMINATOR) {
        Some(tax_amount) => tax_amount,
        None => {
            return Err(ErrorCode::TaxFailed);
        },
    };
    match amount.checked_sub(tax_amount) {
        Some(deposit_amount) => Ok((tax_amount, deposit_amount)),
        None => Err(ErrorCode::TaxFailed),
    }
}

/// Derives the correlation nonce of a deposit. Relayers use it to match a
/// deposit record with the claim it gives rise to; it protects nothing.
pub fn correlation_nonce(
    depositor: &Address,
    pool_custody: &Address,
    timestamp: i64,
    recipient: &[u8; 20],
    amount: u64,
) -> (nonce: u64)
    ensures
        nonce == correlation_nonce_of(*depositor, *pool_custody, timestamp, recipient@, amount),
{
    let address_len = u64_le_bytes(32);
    let recipient_len = u64_le_bytes(20);
    let time = i64_le_bytes(timestamp);
    let amount_bytes = u64_le_bytes(amount);
    let mut hasher = DefaultHasher::new();
    hasher.write(address_len.as_slice());
    hasher.write(depositor.as_bytes());
    hasher.write(address_len.as_slice());
    hasher.write(pool_custody.as_bytes());
    hasher.write(time.as_slice());
    hasher.write(recipient_len.as_slice());
    hasher.write(recipient.as_slice());
    hasher.write(amount_bytes.as_slice());
    assert(hasher@ =~= nonce_input(*depositor, *pool_custody, timestamp, recipient@, amount));
    hasher.finish()
}

/// First step of a deposit: checks it against the ledger and works out the
/// tax. The ledger is not changed; the answer names the transfer of the full
/// amount into pool custody and the record to publish after it.
pub fn deposit_usdc(
    state: &PoolState,
    ctx: &DepositUSDCContext,
    args: &DepositUSDCArgs,
    now: i64,
) -> (out: Result<PendingDeposit, ErrorCode>)
    ensures
        out == deposit_outcome(state@, *ctx, *args, now),
{
    if state.paused {
        return Err(ErrorCode::PoolPaused);
    }
    if ctx.mint_account != state.usdc_mint {
        return Err(ErrorCode::WrongToken);
    }
    let nonce = correlation_nonce(
        &ctx.depositor,
        &ctx.pool_ata,
        now,
        &args.recipient_evm_address,
        args.amount,
    );
    let (tax_amount, deposit_amount) = match compute_tax(args.amount, state.tax) {
        Ok(split) => split,
        Err(e) => {
            return Err(e);
        },
    };
    Ok(
        PendingDeposit {
            transfer: Transfer {
                from: ctx.depositor_ata,
                to: ctx.pool_ata,
                authority: ctx.depositor,
                amount: args.amount,
            },
            record: USDCDeposited {
                address: ctx.pool_state,
                depositor: ctx.depositor,
                amount: deposit_amount,
                recipient_evm_address: args.recipient_evm_address,
                tax: tax_amount,
                nonce,
                timestamp: now,
            },
        },
    )
}

/// Second step of a deposit: takes the host's report on the transfer. After
/// a transfer that went through, the tax is added to the accumulated fees,
/// the amount to the total volume, and the record is released. After a
/// failed transfer nothing changes.
///
/// The accumulated fees must have room for the tax.
pub fn settle_deposit(
    state: &mut PoolState,
    pending: &PendingDeposit,
    transferred: bool,
) -> (out: Option<USDCDeposited>)
    requires
        transferred ==> old(state).accumulated_fees + pending.record.tax <= u64::MAX,
    ensures
        transferred ==> out == Some(pending.record) && final(state)@ == old(state)@.credit_deposit(
            pending.transfer.amount,
            pending.record.tax,
        ),
        !transferred ==> out is None && *final(state) == *old(state),
        old(state).wf() ==> final(state).wf(),
{
    if !transferred {
        return None;
    }
    state.accumulated_fees += pending.record.tax;
    state.record_volume(pending.transfer.amount);
    Some(pending.record)
}

/// At a rate of at most 10000 basis points the tax never exceeds the
/// amount, so a deposit is turned down for its tax only when the product
/// `amount * tax_bps` overflows.
pub proof fn lemma_tax_within_amount(amount: u64, tax_bps: u16)
    requires
        tax_bps <= 10000,
    ensures
        tax_amount(amount, tax_bps) <= amount,
        tax_split(amount, tax_bps) is None <==> amount as nat * tax_bps as nat > u64::MAX,
{
    assert(amount as nat * tax_bps as nat <= amount as nat * 10000) by (nonlinear_arith)
        requires
            tax_bps <= 10000,
    ;
    assert((amount as nat * tax_bps as nat) / 10000 <= (amount as nat * 10000) / 10000)
        by (nonlinear_arith)
        requires
            amount as nat * tax_bps as nat <= amount as nat * 10000,
    ;
}

/// The accounting of a deposit that is accepted and settled: the transfer
/// moves the full amount into pool custody, the record carries the amount
/// less the tax, and the accumulated fees grow by the tax, which is
/// `amount * tax_bps / 10000` rounded down.
pub proof fn lemma_deposit_accounting(
    ledger: Ledger,
    ctx: DepositUSDCContext,
    args: DepositUSDCArgs,
    now: i64,
)
    requires
        deposit_outcome(ledger, ctx, args, now) is Ok,
        ledger.accumulated_fees + tax_amount(args.amount, ledger.tax) <= u64::MAX,
    ensures
        ({
            let pending = deposit_outcome(ledger, ctx, args, now)->Ok_0;
            let tax = tax_amount(args.amount, ledger.tax);
            let next = ledger.credit_deposit(pending.transfer.amount, pending.record.tax);
            &&& pending.transfer.amount == args.amount
            &&& pending.transfer.to == ctx.pool_ata
            &&& pending.record.tax == tax
            &&& pending.record.amount == args.amount - tax
            &&& next.accumulated_fees == ledger.accumulated_fees + tax
        }),
{
}

} // verus!
