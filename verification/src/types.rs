//! The records of the escrow ledger and their well-formedness conditions.
//!
//! `Config` and `EscrowVault` are process-wide singletons; one `Deposit`
//! exists per (depositor, content identifier) pair. Principals are carried as
//! opaque numeric account identifiers: the host ledger's concrete address
//! scheme is its own concern, and the core only ever compares identities for
//! equality.

use vstd::prelude::*;
use vstd::string::StringSliceAdditionalSpecFns;

verus! {

/// An opaque principal identity (a wallet or account), compared only for
/// equality by the core.
pub type AccountId = u64;

/// Global configuration: pricing and authorization parameters.
///
/// Created once by `ops::initialize_config`; mutated only by admin-authorized
/// operations; never destroyed.
#[derive(Clone, Copy, Debug, PartialEq, Eq, Structural)]
pub struct Config {
    /// Identity of the admin allowed to update settings and sweep fees.
    pub admin_key: AccountId,
    /// Storage cost per byte per day, in currency units.
    pub rate_per_byte_per_day: u64,
    /// Minimum storage duration in days.
    pub min_duration_days: u32,
    /// Identity receiving swept admin fees.
    pub withdrawal_wallet: AccountId,
}

/// The pooled-funds ledger: running totals over all deposits and claims.
///
/// `total_deposits` is the sum of all currency ever moved in across deposits
/// and extensions; `total_claimed` the sum of all currency ever moved out via
/// claims. Well-formedness (`wf`) keeps `total_claimed <= total_deposits`.
#[derive(Clone, Copy, Debug, PartialEq, Eq, Structural)]
pub struct EscrowVault {
    /// Total currency deposited by all users.
    pub total_deposits: u64,
    /// Total currency claimed by service providers.
    pub total_claimed: u64,
}

impl EscrowVault {
    /// The vault never records more claimed than deposited.
    pub open spec fn wf(self) -> bool {
        self.total_claimed <= self.total_deposits
    }

    /// Currency still owed to pending claims: deposited minus claimed.
    pub open spec fn outstanding(self) -> int {
        self.total_deposits - self.total_claimed
    }
}

/// One deposit record: the vesting schedule and claim cursor for a single
/// (depositor, content identifier) pair.
#[derive(Clone, Debug, PartialEq, Eq)]
pub struct Deposit {
    /// Identity of the user who made the deposit.
    pub deposit_key: AccountId,
    /// Content identifier of the stored file.
    pub content_cid: String,
    /// Size of the file in bytes; always positive.
    pub file_size: u64,
    /// How many days the file should be stored; always positive, grows
    /// monotonically via extension.
    pub duration_days: u32,
    /// Cumulative currency committed; grows monotonically via extension.
    pub deposit_amount: u64,
    /// Time unit (slot) at which the deposit was created; the vesting
    /// schedule's start.
    pub deposit_slot: u64,
    /// Time unit (slot) of the last claim: the vesting cursor, which only
    /// ever advances.
    pub last_claimed_slot: u64,
    /// Cumulative currency released to the provider for this deposit.
    pub total_claimed: u64,
}

impl Deposit {
    /// Invariant every reachable deposit satisfies: positive size and
    /// duration, claims within the committed amount, and a claim cursor that
    /// never sits before creation.
    pub open spec fn wf(self) -> bool {
        &&& self.file_size > 0
        &&& self.duration_days > 0
        &&& self.total_claimed <= self.deposit_amount
        &&& self.deposit_slot <= self.last_claimed_slot
    }

    /// Currency committed to this deposit but not yet claimed.
    pub open spec fn outstanding(self) -> int {
        self.deposit_amount - self.total_claimed
    }

    /// Serialized size of a deposit record holding `content_cid`: an 8-byte
    /// record tag, a 32-byte depositor address, a length-prefixed identifier,
    /// and the six fixed-width fields.
    pub fn len(content_cid: &str) -> (n: usize)
        requires
            content_cid.spec_bytes().len() + 88 <= usize::MAX,
        ensures
            n == content_cid.spec_bytes().len() + 88,
    {
        8 + 32 + 4 + content_cid.len() + 8 + 4 + 8 + 8 + 8 + 8
    }
}

/// Notification emitted when a deposit is created.
#[derive(Clone, Debug, PartialEq, Eq)]
pub struct DepositCreated {
    pub user: AccountId,
    pub content_cid: String,
    pub file_size: u64,
    pub duration_days: u32,
    pub deposit_amount: u64,
    pub slot: u64,
}

/// Notification emitted when storage duration is extended for an existing
/// deposit.
#[derive(Clone, Debug, PartialEq, Eq)]
pub struct StorageDurationExtended {
    /// Identity of the user extending storage.
    pub user: AccountId,
    /// Identifier of the file being extended.
    pub content_cid: String,
    /// Additional days added to the storage duration.
    pub duration: u32,
    /// Currency paid for the extension.
    pub new_cost: u64,
    /// New total duration after the extension, in days.
    pub extended_duration: u32,
    /// New total deposit amount after the extension.
    pub total_amount: u64,
    /// Time unit at which the extension occurred.
    pub slot: u64,
}

/// Notification emitted when vested rewards are claimed.
#[derive(Clone, Copy, Debug, PartialEq, Eq, Structural)]
pub struct RewardsClaimed {
    pub deposit_key: AccountId,
    pub service_provider: AccountId,
    pub amount: u64,
    pub slot: u64,
}

/// Notification emitted when the admin updates the price rate.
#[derive(Clone, Copy, Debug, PartialEq, Eq, Structural)]
pub struct RateUpdated {
    pub old_rate: u64,
    pub new_rate: u64,
}

/// Notification emitted when the admin updates the minimum duration.
#[derive(Clone, Copy, Debug, PartialEq, Eq, Structural)]
pub struct MinDurationUpdated {
    pub old_duration: u32,
    pub new_duration: u32,
}

/// Notification emitted when the admin sweeps accumulated fees.
#[derive(Clone, Copy, Debug, PartialEq, Eq, Structural)]
pub struct FeesWithdrawn {
    pub admin: AccountId,
    pub amount: u64,
    pub slot: u64,
}

} // verus!
