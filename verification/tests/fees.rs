use bridge_sol::fees::{settle_fees, withdraw_fees};
use bridge_sol::{
    Address, ErrorCode, FeesWithdrawn, PendingSweep, PoolState, Transfer, WithdrawFeesContext,
};

fn addr(tag: u8) -> Address {
    Address::new([tag; 32])
}

fn ledger(fees: u64) -> PoolState {
    let mut validators = [Address::empty(); 16];
    validators[0] = addr(10);
    PoolState {
        owner: addr(10),
        proposed_owner: Address::empty(),
        usdc_mint: addr(11),
        paused: false,
        validators,
        required_signatures: 1,
        tax: 100,
        total_volume: 50_000,
        accumulated_fees: fees,
        treasury: addr(12),
        bump: 255,
    }
}

fn ctx() -> WithdrawFeesContext {
    WithdrawFeesContext {
        owner: addr(10),
        pool_state: addr(21),
        treasury: addr(12),
        mint_account: addr(11),
        treasury_ata: addr(42),
        pool_ata: addr(23),
    }
}

#[test]
fn sweep_moves_all_fees_and_a_second_sweep_moves_nothing() {
    let mut state = ledger(500);
    let pending = withdraw_fees(&state, &ctx(), 900);
    assert_eq!(
        pending,
        Ok(PendingSweep {
            transfer: Transfer { from: addr(23), to: addr(42), authority: addr(21), amount: 500 },
            record: FeesWithdrawn {
                address: addr(21),
                recipient: addr(12),
                amount: 500,
                timestamp: 900,
            },
        })
    );
    let pending = pending.expect("accepted");
    assert_eq!(state.accumulated_fees, 500);
    assert_eq!(settle_fees(&mut state, &pending, true), Some(pending.record));
    assert_eq!(state.accumulated_fees, 0);
    assert_eq!(state, ledger(0));

    let again = withdraw_fees(&state, &ctx(), 901).expect("accepted");
    assert_eq!(again.transfer.amount, 0);
    assert_eq!(again.record.amount, 0);
    settle_fees(&mut state, &again, true).expect("transferred");
    assert_eq!(state, ledger(0));
}

#[test]
fn a_failed_transfer_keeps_the_fees() {
    let mut state = ledger(500);
    let pending = withdraw_fees(&state, &ctx(), 0).expect("accepted");
    assert_eq!(settle_fees(&mut state, &pending, false), None);
    assert_eq!(state, ledger(500));
}

#[test]
fn a_paused_pool_is_not_swept() {
    let mut state = ledger(500);
    state.paused = true;
    assert_eq!(withdraw_fees(&state, &ctx(), 0), Err(ErrorCode::PoolPaused));
    let mut stranger = ctx();
    stranger.owner = addr(9);
    assert_eq!(withdraw_fees(&state, &stranger, 0), Err(ErrorCode::PoolPaused));
}

#[test]
fn only_the_owner_sweeps() {
    let state = ledger(500);
    let mut stranger = ctx();
    stranger.owner = addr(9);
    assert_eq!(withdraw_fees(&state, &stranger, 0), Err(ErrorCode::Unauthorized));
    stranger.mint_account = addr(99);
    assert_eq!(withdraw_fees(&state, &stranger, 0), Err(ErrorCode::Unauthorized));
}

#[test]
fn another_token_is_not_swept() {
    let state = ledger(500);
    let mut wrong = ctx();
    wrong.mint_account = addr(99);
    assert_eq!(withdraw_fees(&state, &wrong, 0), Err(ErrorCode::WrongToken));
}

#[test]
fn sweep_of_the_largest_balance() {
    let mut state = ledger(u64::MAX);
    let pending = withdraw_fees(&state, &ctx(), 0).expect("accepted");
    assert_eq!(pending.transfer.amount, u64::MAX);
    settle_fees(&mut state, &pending, true).expect("transferred");
    assert_eq!(state.accumulated_fees, 0);
    assert_eq!(state.total_volume, 50_000);
}
