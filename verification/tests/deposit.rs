use bridge_sol::deposit::{compute_tax, correlation_nonce, deposit_usdc, settle_deposit};
use bridge_sol::{
    Address, DepositUSDCArgs, DepositUSDCContext, ErrorCode, PendingDeposit, PoolState, Transfer,
    USDCDeposited,
};
use std::collections::hash_map::DefaultHasher;
use std::hash::{Hash, Hasher};

fn addr(tag: u8) -> Address {
    Address::new([tag; 32])
}

fn ledger(tax: u16) -> PoolState {
    let mut validators = [Address::empty(); 16];
    validators[0] = addr(10);
    PoolState {
        owner: addr(10),
        proposed_owner: Address::empty(),
        usdc_mint: addr(11),
        paused: false,
        validators,
        required_signatures: 1,
        tax,
        total_volume: 0,
        accumulated_fees: 0,
        treasury: addr(12),
        bump: 255,
    }
}

fn ctx() -> DepositUSDCContext {
    DepositUSDCContext {
        depositor: addr(20),
        pool_state: addr(21),
        mint_account: addr(11),
        depositor_ata: addr(22),
        pool_ata: addr(23),
    }
}

fn args(amount: u64) -> DepositUSDCArgs {
    DepositUSDCArgs { amount, recipient_evm_address: [0xee; 20] }
}

#[test]
fn one_percent_of_ten_thousand() {
    let mut state = ledger(100);
    let pending = deposit_usdc(&state, &ctx(), &args(10_000), 1_700_000_000).expect("accepted");
    assert_eq!(pending.record.tax, 100);
    assert_eq!(pending.record.amount, 9_900);
    assert_eq!(pending.transfer.amount, 10_000);
    assert_eq!(state, ledger(100));

    let record = settle_deposit(&mut state, &pending, true);
    assert_eq!(record, Some(pending.record));
    assert_eq!(state.accumulated_fees, 100);
    assert_eq!(state.total_volume, 10_000);
    let mut expected = ledger(100);
    expected.accumulated_fees = 100;
    expected.total_volume = 10_000;
    assert_eq!(state, expected);
}

#[test]
fn deposit_names_the_transfer_and_the_record() {
    let state = ledger(100);
    let pending = deposit_usdc(&state, &ctx(), &args(10_000), 1_700_000_000);
    assert_eq!(
        pending,
        Ok(PendingDeposit {
            transfer: Transfer { from: addr(22), to: addr(23), authority: addr(20), amount: 10_000 },
            record: USDCDeposited {
                address: addr(21),
                depositor: addr(20),
                recipient_evm_address: [0xee; 20],
                amount: 9_900,
                tax: 100,
                nonce: correlation_nonce(&addr(20), &addr(23), 1_700_000_000, &[0xee; 20], 10_000),
                timestamp: 1_700_000_000,
            },
        })
    );
}

#[test]
fn tax_is_rounded_down() {
    assert_eq!(compute_tax(10_000, 100), Ok((100, 9_900)));
    assert_eq!(compute_tax(9_999, 100), Ok((99, 9_900)));
    assert_eq!(compute_tax(99, 100), Ok((0, 99)));
    assert_eq!(compute_tax(100, 100), Ok((1, 99)));
    assert_eq!(compute_tax(1, 9_999), Ok((0, 1)));
    assert_eq!(compute_tax(0, 500), Ok((0, 0)));
    assert_eq!(compute_tax(12_345, 1), Ok((1, 12_344)));
    assert_eq!(compute_tax(1_000_000, 10_000), Ok((1_000_000, 0)));
    assert_eq!(compute_tax(777, 0), Ok((0, 777)));
}

#[test]
fn tax_fails_when_the_product_overflows() {
    assert_eq!(compute_tax(u64::MAX, 2), Err(ErrorCode::TaxFailed));
    assert_eq!(compute_tax(u64::MAX, 1), Ok((u64::MAX / 10_000, u64::MAX - u64::MAX / 10_000)));
    assert_eq!(compute_tax(u64::MAX / 100, 100), Ok((u64::MAX / 100 / 100, u64::MAX / 100 - u64::MAX / 100 / 100)));
    assert_eq!(compute_tax(u64::MAX / 100 + 1, 100), Err(ErrorCode::TaxFailed));
}

#[test]
fn tax_fails_when_it_exceeds_the_amount() {
    assert_eq!(compute_tax(10_000, 10_001), Err(ErrorCode::TaxFailed));
    assert_eq!(compute_tax(1, 20_000), Err(ErrorCode::TaxFailed));
    assert_eq!(compute_tax(1, 19_999), Ok((1, 0)));
    assert_eq!(compute_tax(1, 10_001), Ok((1, 0)));
}

#[test]
fn deposit_with_a_failing_tax_is_turned_down() {
    let state = ledger(100);
    assert_eq!(deposit_usdc(&state, &ctx(), &args(u64::MAX), 0), Err(ErrorCode::TaxFailed));
    let state = ledger(20_000);
    assert_eq!(deposit_usdc(&state, &ctx(), &args(5), 0), Err(ErrorCode::TaxFailed));
}

#[test]
fn deposit_into_a_paused_pool_is_turned_down() {
    let mut state = ledger(100);
    state.paused = true;
    assert_eq!(deposit_usdc(&state, &ctx(), &args(10_000), 0), Err(ErrorCode::PoolPaused));
    let mut wrong = ctx();
    wrong.mint_account = addr(99);
    assert_eq!(deposit_usdc(&state, &wrong, &args(u64::MAX), 0), Err(ErrorCode::PoolPaused));
}

#[test]
fn deposit_of_another_token_is_turned_down() {
    let state = ledger(100);
    let mut wrong = ctx();
    wrong.mint_account = addr(99);
    assert_eq!(deposit_usdc(&state, &wrong, &args(10_000), 0), Err(ErrorCode::WrongToken));
    assert_eq!(deposit_usdc(&state, &wrong, &args(u64::MAX), 0), Err(ErrorCode::WrongToken));
}

#[test]
fn a_failed_transfer_settles_nothing() {
    let mut state = ledger(100);
    state.accumulated_fees = 7;
    state.total_volume = 8;
    let before = state;
    let pending = deposit_usdc(&state, &ctx(), &args(10_000), 0).expect("accepted");
    assert_eq!(settle_deposit(&mut state, &pending, false), None);
    assert_eq!(state, before);
}

#[test]
fn fees_accumulate_over_deposits() {
    let mut state = ledger(250);
    for amount in [10_000u64, 400, 39] {
        let pending = deposit_usdc(&state, &ctx(), &args(amount), 0).expect("accepted");
        settle_deposit(&mut state, &pending, true).expect("transferred");
    }
    assert_eq!(state.accumulated_fees, 250 + 10);
    assert_eq!(state.total_volume, 10_439);
}

#[test]
fn total_volume_stays_when_it_would_overflow() {
    let mut state = ledger(100);
    state.total_volume = u64::MAX - 5;
    let pending = deposit_usdc(&state, &ctx(), &args(10_000), 0).expect("accepted");
    settle_deposit(&mut state, &pending, true).expect("transferred");
    assert_eq!(state.total_volume, u64::MAX - 5);
    assert_eq!(state.accumulated_fees, 100);

    state.record_volume(5);
    assert_eq!(state.total_volume, u64::MAX);
    state.record_volume(1);
    assert_eq!(state.total_volume, u64::MAX);
    state.record_volume(0);
    assert_eq!(state.total_volume, u64::MAX);
}

#[test]
fn nonce_is_the_default_hash_of_the_five_inputs() {
    let depositor = addr(20);
    let custody = addr(23);
    let recipient = [0xee; 20];
    for (timestamp, amount) in [(1_700_000_000i64, 10_000u64), (-5, 0), (0, u64::MAX)] {
        let mut hasher = DefaultHasher::new();
        depositor.bytes.hash(&mut hasher);
        custody.bytes.hash(&mut hasher);
        timestamp.hash(&mut hasher);
        recipient.hash(&mut hasher);
        amount.hash(&mut hasher);
        assert_eq!(
            correlation_nonce(&depositor, &custody, timestamp, &recipient, amount),
            hasher.finish()
        );
    }
}

#[test]
fn nonce_depends_on_every_input() {
    let base = correlation_nonce(&addr(1), &addr(2), 3, &[4; 20], 5);
    assert_eq!(base, correlation_nonce(&addr(1), &addr(2), 3, &[4; 20], 5));
    assert_ne!(base, correlation_nonce(&addr(9), &addr(2), 3, &[4; 20], 5));
    assert_ne!(base, correlation_nonce(&addr(1), &addr(9), 3, &[4; 20], 5));
    assert_ne!(base, correlation_nonce(&addr(1), &addr(2), 9, &[4; 20], 5));
    assert_ne!(base, correlation_nonce(&addr(1), &addr(2), 3, &[9; 20], 5));
    assert_ne!(base, correlation_nonce(&addr(1), &addr(2), 3, &[4; 20], 9));
}
