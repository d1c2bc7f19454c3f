use std::str::FromStr;
use storage_escrow::errors::StorachaError;
use storage_escrow::ops;
use storage_escrow::system::EscrowSystem;
use storage_escrow::types::{Config, Deposit, EscrowVault};

const CID_V0: &str = "QmYwAPJzv5CZsnA625s3Xf2nemtYgPpHdWEz79ojWnPbdG";
const CID_V1: &str = "bafybeigdyrzt5sfp7udm7hu76uh7y26nf3efuylqabf3oclgtqy55fbzdi";

const ADMIN: u64 = 7;
const WALLET: u64 = 9;
const USER: u64 = 1;
const PROVIDER: u64 = 42;

fn ledger(rate: u64, min_duration: u32) -> EscrowSystem {
    EscrowSystem::initialize(ADMIN, rate, min_duration, WALLET)
}

#[test]
fn initialize_sets_config_and_zeroes_vault() {
    let sys = ledger(100, 30);
    assert_eq!(sys.config.admin_key, ADMIN);
    assert_eq!(sys.config.rate_per_byte_per_day, 100);
    assert_eq!(sys.config.min_duration_days, 30);
    assert_eq!(sys.config.withdrawal_wallet, WALLET);
    assert_eq!(sys.vault.total_deposits, 0);
    assert_eq!(sys.vault.total_claimed, 0);
    assert_eq!(sys.deposits.len(), 0);
}

#[test]
fn create_deposit_scenario() {
    let mut sys = ledger(100, 1);
    // 1000 bytes for 10 days at rate 100 requires exactly 1,000,000.
    assert_eq!(
        sys.create_deposit(USER, String::from(CID_V0), 1000, 10, 999_999, 5),
        Err(StorachaError::InsufficientDeposit)
    );
    assert_eq!(sys.vault.total_deposits, 0);
    assert!(!sys.has_deposit(USER, &String::from(CID_V0)));

    let ev = sys
        .create_deposit(USER, String::from(CID_V0), 1000, 10, 1_000_000, 5)
        .unwrap();
    assert_eq!(sys.vault.total_deposits, 1_000_000);
    assert_eq!(sys.vault.total_claimed, 0);
    assert!(sys.has_deposit(USER, &String::from(CID_V0)));
    assert_eq!(ev.user, USER);
    assert_eq!(ev.content_cid, CID_V0);
    assert_eq!(ev.file_size, 1000);
    assert_eq!(ev.duration_days, 10);
    assert_eq!(ev.deposit_amount, 1_000_000);
    assert_eq!(ev.slot, 5);

    let d = &sys.deposits[0];
    assert_eq!(d.deposit_key, USER);
    assert_eq!(d.deposit_slot, 5);
    assert_eq!(d.last_claimed_slot, 5);
    assert_eq!(d.total_claimed, 0);
}

#[test]
fn create_deposit_accepts_v1_identifier() {
    let mut sys = ledger(1, 1);
    assert!(sys
        .create_deposit(USER, String::from(CID_V1), 10, 1, 10, 0)
        .is_ok());
}

#[test]
fn create_deposit_invalid_cid() {
    let mut sys = ledger(100, 1);
    assert_eq!(
        sys.create_deposit(USER, String::from("hello world"), 1000, 10, 1_000_000, 5),
        Err(StorachaError::InvalidCid)
    );
    assert_eq!(sys.deposits.len(), 0);
}

#[test]
fn create_deposit_cid_too_long() {
    // A syntactically valid identifier can still exceed the stored length
    // bound: re-encode a parsed identifier in base2, which multiplies its
    // length past 200 bytes while remaining parseable.
    let v0 = cid::Cid::from_str(CID_V0).unwrap();
    let v1 = cid::Cid::new_v1(0x70, *v0.hash());
    let long = v1
        .to_string_of_base(cid::multibase::Base::Base2)
        .unwrap();
    assert!(long.len() > 200);
    assert!(cid::Cid::from_str(&long).is_ok());

    let mut sys = ledger(100, 1);
    assert_eq!(
        sys.create_deposit(USER, long, 1000, 10, 1_000_000, 5),
        Err(StorachaError::CidTooLong)
    );
}

#[test]
fn create_deposit_zero_file_size() {
    let mut sys = ledger(100, 1);
    assert_eq!(
        sys.create_deposit(USER, String::from(CID_V0), 0, 10, 1_000_000, 5),
        Err(StorachaError::InvalidFileSize)
    );
}

#[test]
fn create_deposit_duration_too_short() {
    let mut sys = ledger(100, 30);
    assert_eq!(
        sys.create_deposit(USER, String::from(CID_V0), 1000, 29, u64::MAX, 5),
        Err(StorachaError::DurationTooShort)
    );
}

#[test]
fn create_deposit_overflow_guard() {
    let mut sys = ledger(100, 1);
    assert_eq!(
        sys.create_deposit(USER, String::from(CID_V0), u64::MAX, 2, u64::MAX, 5),
        Err(StorachaError::ArithmeticOverflow)
    );
}

#[test]
fn create_deposit_vault_total_overflow() {
    let mut sys = EscrowSystem {
        config: Config {
            admin_key: ADMIN,
            rate_per_byte_per_day: 1,
            min_duration_days: 1,
            withdrawal_wallet: WALLET,
        },
        vault: EscrowVault { total_deposits: u64::MAX - 1, total_claimed: 0 },
        deposits: Vec::new(),
    };
    assert_eq!(
        sys.create_deposit(USER, String::from(CID_V0), 10, 1, 10, 5),
        Err(StorachaError::ArithmeticOverflow)
    );
    assert_eq!(sys.vault.total_deposits, u64::MAX - 1);
}

#[test]
fn extend_adds_exactly_payment_and_duration() {
    let mut sys = ledger(100, 1);
    sys.create_deposit(USER, String::from(CID_V0), 1000, 10, 1_000_000, 5)
        .unwrap();
    // 5 more days on 1000 bytes at rate 100 cost 500,000; pay 600,000.
    let ev = sys
        .extend_storage_duration(USER, String::from(CID_V0), 5, 600_000, 50)
        .unwrap();
    let d = &sys.deposits[0];
    assert_eq!(d.duration_days, 15);
    assert_eq!(d.deposit_amount, 1_600_000);
    assert_eq!(sys.vault.total_deposits, 1_600_000);
    // The claim cursor is deliberately left alone by an extension.
    assert_eq!(d.last_claimed_slot, 5);
    assert_eq!(ev.user, USER);
    assert_eq!(ev.duration, 5);
    assert_eq!(ev.new_cost, 600_000);
    assert_eq!(ev.extended_duration, 15);
    assert_eq!(ev.total_amount, 1_600_000);
    assert_eq!(ev.slot, 50);
}

#[test]
fn extend_invalid_duration() {
    let mut sys = ledger(100, 1);
    sys.create_deposit(USER, String::from(CID_V0), 1000, 10, 1_000_000, 5)
        .unwrap();
    assert_eq!(
        sys.extend_storage_duration(USER, String::from(CID_V0), 0, 600_000, 50),
        Err(StorachaError::InvalidDuration)
    );
    assert_eq!(sys.deposits[0].duration_days, 10);
}

#[test]
fn extend_insufficient_payment() {
    let mut sys = ledger(100, 1);
    sys.create_deposit(USER, String::from(CID_V0), 1000, 10, 1_000_000, 5)
        .unwrap();
    assert_eq!(
        sys.extend_storage_duration(USER, String::from(CID_V0), 5, 499_999, 50),
        Err(StorachaError::InsufficientDeposit)
    );
    assert_eq!(sys.vault.total_deposits, 1_000_000);
}

#[test]
fn extend_unauthorized_user() {
    let config = Config {
        admin_key: ADMIN,
        rate_per_byte_per_day: 100,
        min_duration_days: 1,
        withdrawal_wallet: WALLET,
    };
    let mut vault = EscrowVault { total_deposits: 1_000_000, total_claimed: 0 };
    let mut d = Deposit {
        deposit_key: USER,
        content_cid: String::from(CID_V0),
        file_size: 1000,
        duration_days: 10,
        deposit_amount: 1_000_000,
        deposit_slot: 5,
        last_claimed_slot: 5,
        total_claimed: 0,
    };
    assert_eq!(
        ops::extend_storage_duration(
            &config,
            &mut vault,
            &mut d,
            USER + 1,
            String::from(CID_V0),
            5,
            600_000,
            50,
        ),
        Err(StorachaError::UnauthorizedUser)
    );
    assert_eq!(d.duration_days, 10);
    assert_eq!(vault.total_deposits, 1_000_000);
}

#[test]
fn claim_truncation_never_vests() {
    // 1,000,000 over 10 days truncates to a zero per-slot rate: even a full
    // horizon later there is nothing to claim.
    let mut sys = ledger(100, 1);
    sys.create_deposit(USER, String::from(CID_V0), 1000, 10, 1_000_000, 0)
        .unwrap();
    assert_eq!(
        sys.claim_rewards(USER, &String::from(CID_V0), PROVIDER, 2_160_000),
        Err(StorachaError::NothingToClaim)
    );
}

#[test]
fn claim_flow_and_empty_second_claim() {
    let mut sys = ledger(1, 1);
    sys.create_deposit(USER, String::from(CID_V0), 1000, 1, 216_000_000, 0)
        .unwrap();
    let (amount, ev) = sys
        .claim_rewards(USER, &String::from(CID_V0), PROVIDER, 100)
        .unwrap();
    assert_eq!(amount, 100_000);
    assert_eq!(ev.service_provider, PROVIDER);
    assert_eq!(sys.vault.total_claimed, 100_000);
    assert_eq!(sys.deposits[0].total_claimed, 100_000);
    // No time elapsed since the claim above: the next one is empty.
    assert_eq!(
        sys.claim_rewards(USER, &String::from(CID_V0), PROVIDER, 100),
        Err(StorachaError::NothingToClaim)
    );
    assert_eq!(sys.vault.total_claimed, 100_000);
    // The vault-level invariant is observable at every step.
    assert!(sys.vault.total_claimed <= sys.vault.total_deposits);
}

#[test]
fn admin_gating_update_rate() {
    let mut sys = ledger(100, 1);
    assert_eq!(
        sys.update_rate(ADMIN + 1, 55),
        Err(StorachaError::UnauthorizedAdmin)
    );
    assert_eq!(sys.config.rate_per_byte_per_day, 100);
    let ev = sys.update_rate(ADMIN, 55).unwrap();
    assert_eq!(ev.old_rate, 100);
    assert_eq!(ev.new_rate, 55);
    assert_eq!(sys.config.rate_per_byte_per_day, 55);
}

#[test]
fn admin_gating_update_min_duration() {
    let mut sys = ledger(100, 1);
    assert_eq!(
        sys.update_min_duration(ADMIN + 1, 30),
        Err(StorachaError::UnauthorizedAdmin)
    );
    assert_eq!(sys.config.min_duration_days, 1);
    let ev = sys.update_min_duration(ADMIN, 30).unwrap();
    assert_eq!(ev.old_duration, 1);
    assert_eq!(ev.new_duration, 30);
    assert_eq!(sys.config.min_duration_days, 30);
}

#[test]
fn admin_gating_withdraw_fees() {
    let sys = ledger(100, 1);
    assert_eq!(
        sys.withdraw_fees(1_000, ADMIN + 1, WALLET, 500, 77),
        Err(StorachaError::UnauthorizedAdmin)
    );
}

#[test]
fn withdraw_fees_wrong_wallet() {
    let sys = ledger(100, 1);
    assert_eq!(
        sys.withdraw_fees(1_000, ADMIN, WALLET + 1, 500, 77),
        Err(StorachaError::InvalidWithdrawalWallet)
    );
}

#[test]
fn withdraw_fees_insufficient_balance() {
    let sys = ledger(100, 1);
    assert_eq!(
        sys.withdraw_fees(499, ADMIN, WALLET, 500, 77),
        Err(StorachaError::InsufficientEscrowFunds)
    );
}

#[test]
fn withdraw_fees_event() {
    let sys = ledger(100, 1);
    let ev = sys.withdraw_fees(1_000, ADMIN, WALLET, 500, 77).unwrap();
    assert_eq!(ev.admin, ADMIN);
    assert_eq!(ev.amount, 500);
    assert_eq!(ev.slot, 77);
}

#[test]
fn lookup_by_key() {
    let mut sys = ledger(1, 1);
    sys.create_deposit(USER, String::from(CID_V0), 10, 1, 10, 0)
        .unwrap();
    sys.create_deposit(USER, String::from(CID_V1), 10, 1, 10, 0)
        .unwrap();
    assert_eq!(sys.find_deposit(USER, &String::from(CID_V0)), Some(0));
    assert_eq!(sys.find_deposit(USER, &String::from(CID_V1)), Some(1));
    assert_eq!(sys.find_deposit(USER + 1, &String::from(CID_V0)), None);
    assert!(!sys.has_deposit(USER + 1, &String::from(CID_V1)));
    assert_eq!(sys.vault.total_deposits, 20);
}

fn assert_ledger_invariant(sys: &EscrowSystem) {
    assert!(sys.vault.total_claimed <= sys.vault.total_deposits);
    let mut outstanding_sum: u128 = 0;
    for d in &sys.deposits {
        assert!(d.total_claimed <= d.deposit_amount);
        assert!(d.file_size > 0);
        assert!(d.duration_days > 0);
        outstanding_sum += (d.deposit_amount - d.total_claimed) as u128;
    }
    let vault_outstanding = (sys.vault.total_deposits - sys.vault.total_claimed) as u128;
    assert!(outstanding_sum <= vault_outstanding);
}

#[test]
fn invariant_holds_across_mixed_operations() {
    let mut sys = ledger(1, 1);
    assert_ledger_invariant(&sys);

    sys.create_deposit(USER, String::from(CID_V0), 1000, 1, 216_000_000, 0)
        .unwrap();
    assert_ledger_invariant(&sys);

    sys.create_deposit(USER + 1, String::from(CID_V1), 2000, 2, 432_000_000, 10)
        .unwrap();
    assert_ledger_invariant(&sys);

    sys.extend_storage_duration(USER, String::from(CID_V0), 1, 216_000_000, 20)
        .unwrap();
    assert_ledger_invariant(&sys);

    sys.claim_rewards(USER, &String::from(CID_V0), PROVIDER, 500)
        .unwrap();
    assert_ledger_invariant(&sys);

    sys.claim_rewards(USER + 1, &String::from(CID_V1), PROVIDER, 700)
        .unwrap();
    assert_ledger_invariant(&sys);

    sys.update_rate(ADMIN, 50).unwrap();
    sys.update_min_duration(ADMIN, 2).unwrap();
    assert_ledger_invariant(&sys);

    // Drive one deposit to exhaustion and look again.
    sys.claim_rewards(USER + 1, &String::from(CID_V1), PROVIDER, u64::MAX)
        .unwrap();
    assert_ledger_invariant(&sys);
    assert_eq!(sys.deposits[1].total_claimed, sys.deposits[1].deposit_amount);
}
