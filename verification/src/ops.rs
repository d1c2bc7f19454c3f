//! The escrow operations, as pure transitions over the ledger records.
//!
//! Each function here is the accounting core of one operation the host
//! exposes: it takes the records the host has already resolved (the singleton
//! `Config` and `EscrowVault`, and the addressed `Deposit`), the caller's
//! identity and the current slot, validates, mutates, and hands back the
//! notification event to emit. The host performs the actual balance transfer
//! of exactly the amount the operation settled on; a failing operation
//! changes nothing, so the host can abort the whole transaction.

use vstd::prelude::*;
use vstd::utf8::encode_utf8;
use crate::content_id::{cid_is_valid, cid_parses};
use crate::errors::StorachaError;
use crate::pricing::{required_deposit_amount, spec_required_amount};
use crate::types::{
    AccountId, Config, Deposit, DepositCreated, EscrowVault, FeesWithdrawn, MinDurationUpdated,
    RateUpdated, RewardsClaimed, StorageDurationExtended,
};
use crate::vesting::{
    claimable_now, lemma_actual_claim_bounds, spec_actual_claim, spec_after_claim,
};

verus! {

/// The longest content identifier a deposit record accepts, in bytes.
pub const MAX_CID_BYTES: usize = 200;

/// The validation chain of `create_deposit`, in the order the checks run;
/// `None` means every check passed. `vault_total` is the vault's deposited
/// total before the operation.
pub open spec fn create_checks(
    config: Config,
    cid: Seq<char>,
    file_size: u64,
    duration_days: u32,
    deposit_amount: u64,
    vault_total: u64,
) -> Option<StorachaError> {
    if !cid_parses(cid) {
        Some(StorachaError::InvalidCid)
    } else if encode_utf8(cid).len() > MAX_CID_BYTES {
        Some(StorachaError::CidTooLong)
    } else if file_size == 0 {
        Some(StorachaError::InvalidFileSize)
    } else if duration_days < config.min_duration_days {
        Some(StorachaError::DurationTooShort)
    } else if file_size * duration_days > u64::MAX || spec_required_amount(
        file_size as int,
        duration_days as int,
        config.rate_per_byte_per_day as int,
    ) > u64::MAX {
        Some(StorachaError::ArithmeticOverflow)
    } else if (deposit_amount as int) < spec_required_amount(
        file_size as int,
        duration_days as int,
        config.rate_per_byte_per_day as int,
    ) {
        Some(StorachaError::InsufficientDeposit)
    } else if vault_total + deposit_amount > u64::MAX {
        Some(StorachaError::ArithmeticOverflow)
    } else {
        None
    }
}

/// Creates the singleton configuration and a zeroed escrow vault. The host
/// must call this exactly once; rejecting a second initialization is its
/// concern.
pub fn initialize_config(
    admin_key: AccountId,
    rate_per_byte_per_day: u64,
    min_duration_days: u32,
    withdrawal_wallet: AccountId,
) -> (r: (Config, EscrowVault))
    ensures
        r.0 == (Config { admin_key, rate_per_byte_per_day, min_duration_days, withdrawal_wallet }),
        r.1 == (EscrowVault { total_deposits: 0, total_claimed: 0 }),
        r.1.wf(),
{
    let config = Config { admin_key, rate_per_byte_per_day, min_duration_days, withdrawal_wallet };
    let escrow = EscrowVault { total_deposits: 0, total_claimed: 0 };
    (config, escrow)
}

/// Validates a storage order, prices it, and creates the deposit record.
///
/// On success the host must have transferred exactly `deposit_amount` from
/// `user` to the vault; the vault's deposited total grows by that amount and
/// the new record starts its vesting schedule at `now`. On failure nothing
/// changes.
///
/// The requested duration must be positive: a zero-duration schedule has no
/// vesting horizon. The policy floor (`min_duration_days`) is checked here
/// and reported as `DurationTooShort`.
pub fn create_deposit(
    config: &Config,
    escrow: &mut EscrowVault,
    user: AccountId,
    content_cid: String,
    file_size: u64,
    duration_days: u32,
    deposit_amount: u64,
    now: u64,
) -> (r: Result<(Deposit, DepositCreated), StorachaError>)
    requires
        duration_days > 0,
        old(escrow).wf(),
    ensures
        final(escrow).wf(),
        match r {
            Ok(out) => {
                &&& create_checks(
                    *config,
                    content_cid@,
                    file_size,
                    duration_days,
                    deposit_amount,
                    old(escrow).total_deposits,
                ) is None
                &&& out.0 == (Deposit {
                    deposit_key: user,
                    content_cid: content_cid,
                    file_size,
                    duration_days,
                    deposit_amount,
                    deposit_slot: now,
                    last_claimed_slot: now,
                    total_claimed: 0,
                })
                &&& out.0.wf()
                &&& *final(escrow) == (EscrowVault {
                    total_deposits: (old(escrow).total_deposits + deposit_amount) as u64,
                    total_claimed: old(escrow).total_claimed,
                })
                &&& out.1 == (DepositCreated {
                    user,
                    content_cid: content_cid,
                    file_size,
                    duration_days,
                    deposit_amount,
                    slot: now,
                })
            },
            Err(e) => {
                &&& Some(e) == create_checks(
                    *config,
                    content_cid@,
                    file_size,
                    duration_days,
                    deposit_amount,
                    old(escrow).total_deposits,
                )
                &&& *final(escrow) == *old(escrow)
            },
        },
        // Pricing law: an underpriced order never creates a deposit.
        (deposit_amount as int) < spec_required_amount(
            file_size as int,
            duration_days as int,
            config.rate_per_byte_per_day as int,
        ) ==> r is Err,
{
    if !cid_is_valid(content_cid.as_str()) {
        return Err(StorachaError::InvalidCid);
    }
    if content_cid.as_str().as_bytes().len() > MAX_CID_BYTES {
        return Err(StorachaError::CidTooLong);
    }
    if file_size == 0 {
        return Err(StorachaError::InvalidFileSize);
    }
    if duration_days < config.min_duration_days {
        return Err(StorachaError::DurationTooShort);
    }
    let required_amount = match required_deposit_amount(
        file_size,
        duration_days,
        config.rate_per_byte_per_day,
    ) {
        Ok(v) => v,
        Err(e) => {
            return Err(e);
        },
    };
    if deposit_amount < required_amount {
        return Err(StorachaError::InsufficientDeposit);
    }
    let new_total = match escrow.total_deposits.checked_add(deposit_amount) {
        Some(v) => v,
        None => {
            return Err(StorachaError::ArithmeticOverflow);
        },
    };
    escrow.total_deposits = new_total;
    let deposit = Deposit {
        deposit_key: user,
        content_cid: content_cid.clone(),
        file_size,
        duration_days,
        deposit_amount,
        deposit_slot: now,
        last_claimed_slot: now,
        total_claimed: 0,
    };
    let event = DepositCreated {
        user,
        content_cid,
        file_size,
        duration_days,
        deposit_amount,
        slot: now,
    };
    Ok((deposit, event))
}

/// The validation chain of `extend_storage_duration`, in the order the
/// checks run; `None` means every check passed.
pub open spec fn extend_checks(
    config: Config,
    deposit: Deposit,
    user: AccountId,
    cid: Seq<char>,
    duration: u32,
    storage_extension_cost: u64,
    vault_total: u64,
) -> Option<StorachaError> {
    if user != deposit.deposit_key {
        Some(StorachaError::UnauthorizedUser)
    } else if !cid_parses(cid) {
        Some(StorachaError::InvalidCid)
    } else if duration == 0 {
        Some(StorachaError::InvalidDuration)
    } else if deposit.file_size * duration > u64::MAX || spec_required_amount(
        deposit.file_size as int,
        duration as int,
        config.rate_per_byte_per_day as int,
    ) > u64::MAX {
        Some(StorachaError::ArithmeticOverflow)
    } else if (storage_extension_cost as int) < spec_required_amount(
        deposit.file_size as int,
        duration as int,
        config.rate_per_byte_per_day as int,
    ) {
        Some(StorachaError::InsufficientDeposit)
    } else if deposit.duration_days + duration > u32::MAX {
        Some(StorachaError::ArithmeticOverflow)
    } else if deposit.deposit_amount + storage_extension_cost > u64::MAX {
        Some(StorachaError::ArithmeticOverflow)
    } else if vault_total + storage_extension_cost > u64::MAX {
        Some(StorachaError::ArithmeticOverflow)
    } else {
        None
    }
}

/// Extends an existing deposit: the depositor pays for `duration` more days
/// at the current rate, and the payment joins the vesting pool.
///
/// The claim cursor is deliberately not reset: unclaimed vesting keeps
/// accruing against the old schedule while the new duration and amount extend
/// the total pool, so a provider who has not yet claimed is not penalized.
/// On success the deposit's duration grows by exactly `duration`, and its
/// amount and the vault's deposited total by exactly
/// `storage_extension_cost`; on failure nothing changes.
pub fn extend_storage_duration(
    config: &Config,
    escrow: &mut EscrowVault,
    deposit: &mut Deposit,
    user: AccountId,
    content_cid: String,
    duration: u32,
    storage_extension_cost: u64,
    now: u64,
) -> (r: Result<StorageDurationExtended, StorachaError>)
    requires
        old(escrow).wf(),
        old(deposit).wf(),
    ensures
        final(escrow).wf(),
        final(deposit).wf(),
        match r {
            Ok(ev) => {
                &&& extend_checks(
                    *config,
                    *old(deposit),
                    user,
                    content_cid@,
                    duration,
                    storage_extension_cost,
                    old(escrow).total_deposits,
                ) is None
                &&& *final(deposit) == (Deposit {
                    duration_days: (old(deposit).duration_days + duration) as u32,
                    deposit_amount: (old(deposit).deposit_amount + storage_extension_cost) as u64,
                    ..*old(deposit)
                })
                &&& *final(escrow) == (EscrowVault {
                    total_deposits: (old(escrow).total_deposits + storage_extension_cost) as u64,
                    total_claimed: old(escrow).total_claimed,
                })
                &&& ev == (StorageDurationExtended {
                    user,
                    content_cid: content_cid,
                    duration,
                    new_cost: storage_extension_cost,
                    extended_duration: final(deposit).duration_days,
                    total_amount: final(deposit).deposit_amount,
                    slot: now,
                })
            },
            Err(e) => {
                &&& Some(e) == extend_checks(
                    *config,
                    *old(deposit),
                    user,
                    content_cid@,
                    duration,
                    storage_extension_cost,
                    old(escrow).total_deposits,
                )
                &&& *final(deposit) == *old(deposit)
                &&& *final(escrow) == *old(escrow)
            },
        },
{
    if user != deposit.deposit_key {
        return Err(StorachaError::UnauthorizedUser);
    }
    if !cid_is_valid(content_cid.as_str()) {
        return Err(StorachaError::InvalidCid);
    }
    if duration == 0 {
        return Err(StorachaError::InvalidDuration);
    }
    let required_cost = match required_deposit_amount(
        deposit.file_size,
        duration,
        config.rate_per_byte_per_day,
    ) {
        Ok(v) => v,
        Err(e) => {
            return Err(e);
        },
    };
    if storage_extension_cost < required_cost {
        return Err(StorachaError::InsufficientDeposit);
    }
    let new_duration = match deposit.duration_days.checked_add(duration) {
        Some(v) => v,
        None => {
            return Err(StorachaError::ArithmeticOverflow);
        },
    };
    let new_amount = match deposit.deposit_amount.checked_add(storage_extension_cost) {
        Some(v) => v,
        None => {
            return Err(StorachaError::ArithmeticOverflow);
        },
    };
    let new_vault_total = match escrow.total_deposits.checked_add(storage_extension_cost) {
        Some(v) => v,
        None => {
            return Err(StorachaError::ArithmeticOverflow);
        },
    };
    deposit.duration_days = new_duration;
    deposit.deposit_amount = new_amount;
    escrow.total_deposits = new_vault_total;
    let event = StorageDurationExtended {
        user,
        content_cid,
        duration,
        new_cost: storage_extension_cost,
        extended_duration: new_duration,
        total_amount: new_amount,
        slot: now,
    };
    Ok(event)
}

/// Releases the vested-but-unclaimed part of a deposit to a service
/// provider.
///
/// On success the host must have transferred exactly the returned amount
/// from the vault to the provider's nominated target; the claim cursor
/// advances to `now` and both claimed totals grow by that amount. When
/// nothing has vested the operation reports `NothingToClaim` and changes
/// nothing — a legitimate outcome, not a fault.
///
/// The claimant is deliberately not required to match the depositor or any
/// stored allowlist: the payout target is caller-supplied, and hardening
/// that is left to the caller.
///
/// The deposit's outstanding obligation never exceeding the vault's is the
/// pooling invariant every reachable state satisfies; it is what makes the
/// vault-side addition safe.
pub fn claim_rewards(
    escrow: &mut EscrowVault,
    deposit: &mut Deposit,
    service_provider: AccountId,
    now: u64,
) -> (r: Result<(u64, RewardsClaimed), StorachaError>)
    requires
        old(escrow).wf(),
        old(deposit).wf(),
        old(deposit).outstanding() <= old(escrow).outstanding(),
    ensures
        final(escrow).wf(),
        final(deposit).wf(),
        final(deposit).outstanding() <= final(escrow).outstanding(),
        final(escrow).total_deposits == old(escrow).total_deposits,
        match r {
            Ok(out) => {
                &&& out.0 == spec_actual_claim(*old(deposit), now)
                &&& out.0 > 0
                &&& *final(deposit) == spec_after_claim(*old(deposit), now)
                &&& *final(escrow) == (EscrowVault {
                    total_deposits: old(escrow).total_deposits,
                    total_claimed: (old(escrow).total_claimed + out.0) as u64,
                })
                &&& out.1 == (RewardsClaimed {
                    deposit_key: old(deposit).deposit_key,
                    service_provider,
                    amount: out.0,
                    slot: now,
                })
            },
            Err(e) => {
                &&& e == StorachaError::NothingToClaim
                &&& spec_actual_claim(*old(deposit), now) == 0
                &&& *final(deposit) == *old(deposit)
                &&& *final(escrow) == *old(escrow)
            },
        },
{
    let actual_claim = claimable_now(deposit, now);
    if actual_claim == 0 {
        return Err(StorachaError::NothingToClaim);
    }
    proof {
        lemma_actual_claim_bounds(*deposit, now);
    }
    deposit.last_claimed_slot = now;
    deposit.total_claimed = deposit.total_claimed + actual_claim;
    escrow.total_claimed = escrow.total_claimed + actual_claim;
    let event = RewardsClaimed {
        deposit_key: deposit.deposit_key,
        service_provider,
        amount: actual_claim,
        slot: now,
    };
    Ok((actual_claim, event))
}

/// Decides an admin fee sweep: `amount` moves from the vault to the
/// configured withdrawal wallet when the caller is the admin, the nominated
/// wallet matches the configuration, and the vault actually holds enough.
///
/// `escrow_balance` is the vault's real held balance as the host reads it.
/// The vault's running totals are deliberately untouched: fee sweeps are
/// expected to draw only from the surplus above outstanding obligations, and
/// the balance check is the design's sole backstop.
pub fn withdraw_fees(
    config: &Config,
    escrow_balance: u64,
    admin: AccountId,
    withdrawal_wallet: AccountId,
    amount: u64,
    now: u64,
) -> (r: Result<FeesWithdrawn, StorachaError>)
    ensures
        admin != config.admin_key ==> r == Err::<FeesWithdrawn, StorachaError>(
            StorachaError::UnauthorizedAdmin,
        ),
        match r {
            Ok(ev) => {
                &&& admin == config.admin_key
                &&& withdrawal_wallet == config.withdrawal_wallet
                &&& escrow_balance >= amount
                &&& ev == (FeesWithdrawn { admin, amount, slot: now })
            },
            Err(e) => {
                &&& e == (if admin != config.admin_key {
                    StorachaError::UnauthorizedAdmin
                } else if withdrawal_wallet != config.withdrawal_wallet {
                    StorachaError::InvalidWithdrawalWallet
                } else {
                    StorachaError::InsufficientEscrowFunds
                })
                &&& (admin != config.admin_key || withdrawal_wallet != config.withdrawal_wallet
                    || escrow_balance < amount)
            },
        },
{
    if admin != config.admin_key {
        return Err(StorachaError::UnauthorizedAdmin);
    }
    if withdrawal_wallet != config.withdrawal_wallet {
        return Err(StorachaError::InvalidWithdrawalWallet);
    }
    if escrow_balance < amount {
        return Err(StorachaError::InsufficientEscrowFunds);
    }
    Ok(FeesWithdrawn { admin, amount, slot: now })
}

/// Updates the price rate. Only the configured admin may do so; anyone else
/// is refused and the configuration is left untouched.
pub fn update_rate(config: &mut Config, admin: AccountId, new_rate: u64) -> (r: Result<
    RateUpdated,
    StorachaError,
>)
    ensures
        admin != old(config).admin_key ==> r == Err::<RateUpdated, StorachaError>(
            StorachaError::UnauthorizedAdmin,
        ),
        match r {
            Ok(ev) => {
                &&& admin == old(config).admin_key
                &&& *final(config) == (Config {
                    rate_per_byte_per_day: new_rate,
                    ..*old(config)
                })
                &&& ev == (RateUpdated {
                    old_rate: old(config).rate_per_byte_per_day,
                    new_rate,
                })
            },
            Err(e) => {
                &&& e == StorachaError::UnauthorizedAdmin
                &&& admin != old(config).admin_key
                &&& *final(config) == *old(config)
            },
        },
{
    if admin != config.admin_key {
        return Err(StorachaError::UnauthorizedAdmin);
    }
    let old_rate = config.rate_per_byte_per_day;
    config.rate_per_byte_per_day = new_rate;
    Ok(RateUpdated { old_rate, new_rate })
}

/// Updates the minimum storage duration. Only the configured admin may do
/// so; anyone else is refused and the configuration is left untouched.
pub fn update_min_duration(config: &mut Config, admin: AccountId, new_min_duration: u32) -> (r:
    Result<MinDurationUpdated, StorachaError>)
    ensures
        admin != old(config).admin_key ==> r == Err::<MinDurationUpdated, StorachaError>(
            StorachaError::UnauthorizedAdmin,
        ),
        match r {
            Ok(ev) => {
                &&& admin == old(config).admin_key
                &&& *final(config) == (Config {
                    min_duration_days: new_min_duration,
                    ..*old(config)
                })
                &&& ev == (MinDurationUpdated {
                    old_duration: old(config).min_duration_days,
                    new_duration: new_min_duration,
                })
            },
            Err(e) => {
                &&& e == StorachaError::UnauthorizedAdmin
                &&& admin != old(config).admin_key
                &&& *final(config) == *old(config)
            },
        },
{
    if admin != config.admin_key {
        return Err(StorachaError::UnauthorizedAdmin);
    }
    let old_duration = config.min_duration_days;
    config.min_duration_days = new_min_duration;
    Ok(MinDurationUpdated { old_duration, new_duration: new_min_duration })
}

} // verus!
