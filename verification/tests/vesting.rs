use storage_escrow::errors::StorachaError;
use storage_escrow::ops;
use storage_escrow::types::{Deposit, EscrowVault};
use storage_escrow::vesting::claimable_now;

fn fresh_deposit(deposit_amount: u64, duration_days: u32) -> Deposit {
    Deposit {
        deposit_key: 1,
        content_cid: String::from("QmYwAPJzv5CZsnA625s3Xf2nemtYgPpHdWEz79ojWnPbdG"),
        file_size: 1000,
        duration_days,
        deposit_amount,
        deposit_slot: 0,
        last_claimed_slot: 0,
        total_claimed: 0,
    }
}

#[test]
fn claimable_truncates_small_deposits() {
    // 1,000,000 over 10 days: 2,160,000 slots, so the per-slot rate
    // truncates to zero and nothing ever vests.
    let d = fresh_deposit(1_000_000, 10);
    assert_eq!(claimable_now(&d, 2_160_000), 0);
    assert_eq!(claimable_now(&d, u64::MAX), 0);
}

#[test]
fn claimable_linear_release() {
    // 216,000,000 over 1 day: 1000 units vest per slot.
    let d = fresh_deposit(216_000_000, 1);
    assert_eq!(claimable_now(&d, 0), 0);
    assert_eq!(claimable_now(&d, 1), 1000);
    assert_eq!(claimable_now(&d, 100), 100_000);
    assert_eq!(claimable_now(&d, 215_999), 215_999_000);
}

#[test]
fn claimable_caps_at_remaining() {
    let d = fresh_deposit(216_000_000, 1);
    // At the horizon everything has vested; past it, the cap holds.
    assert_eq!(claimable_now(&d, 216_000), 216_000_000);
    assert_eq!(claimable_now(&d, 432_000), 216_000_000);
    assert_eq!(claimable_now(&d, u64::MAX), 216_000_000);
}

#[test]
fn claimable_zero_elapsed() {
    let mut d = fresh_deposit(216_000_000, 1);
    d.last_claimed_slot = 500;
    assert_eq!(claimable_now(&d, 500), 0);
    // A clock that ran backwards saturates to zero elapsed time.
    assert_eq!(claimable_now(&d, 400), 0);
}

#[test]
fn claim_rewards_moves_funds_and_cursor() {
    let mut vault = EscrowVault { total_deposits: 216_000_000, total_claimed: 0 };
    let mut d = fresh_deposit(216_000_000, 1);
    let (amount, ev) = ops::claim_rewards(&mut vault, &mut d, 42, 100).unwrap();
    assert_eq!(amount, 100_000);
    assert_eq!(d.total_claimed, 100_000);
    assert_eq!(d.last_claimed_slot, 100);
    assert_eq!(vault.total_claimed, 100_000);
    assert_eq!(vault.total_deposits, 216_000_000);
    assert_eq!(ev.deposit_key, 1);
    assert_eq!(ev.service_provider, 42);
    assert_eq!(ev.amount, 100_000);
    assert_eq!(ev.slot, 100);
}

#[test]
fn claim_rewards_nothing_twice_at_same_slot() {
    let mut vault = EscrowVault { total_deposits: 216_000_000, total_claimed: 0 };
    let mut d = fresh_deposit(216_000_000, 1);
    assert!(ops::claim_rewards(&mut vault, &mut d, 42, 100).is_ok());
    // No time has passed since the first claim: the second is a no-op.
    assert_eq!(
        ops::claim_rewards(&mut vault, &mut d, 42, 100),
        Err(StorachaError::NothingToClaim)
    );
    assert_eq!(d.total_claimed, 100_000);
    assert_eq!(vault.total_claimed, 100_000);
}

#[test]
fn claim_rewards_full_vesting() {
    let mut vault = EscrowVault { total_deposits: 216_000_000, total_claimed: 0 };
    let mut d = fresh_deposit(216_000_000, 1);
    let (amount, _) = ops::claim_rewards(&mut vault, &mut d, 42, 216_000).unwrap();
    assert_eq!(amount, 216_000_000);
    assert_eq!(d.total_claimed, d.deposit_amount);
    // Exhausted: every later claim is empty.
    assert_eq!(
        ops::claim_rewards(&mut vault, &mut d, 42, 500_000),
        Err(StorachaError::NothingToClaim)
    );
}

#[test]
fn claim_rewards_sums_stay_within_deposit() {
    let mut vault = EscrowVault { total_deposits: 216_000_000, total_claimed: 0 };
    let mut d = fresh_deposit(216_000_000, 1);
    let mut released: u64 = 0;
    let times: [u64; 5] = [100, 100, 90_000, 216_000, 400_000];
    for now in times {
        if let Ok((amount, _)) = ops::claim_rewards(&mut vault, &mut d, 42, now) {
            released += amount;
        }
    }
    assert_eq!(released, d.total_claimed);
    assert!(released <= d.deposit_amount);
    assert_eq!(released, 216_000_000);
}
