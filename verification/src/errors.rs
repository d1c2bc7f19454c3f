//! The error taxonomy of the escrow core.
//!
//! Every failing operation reports exactly one of these kinds; no operation
//! leaves a partial state change behind when it fails.

use vstd::prelude::*;

verus! {

/// Why an escrow operation was refused.
///
/// Validation errors (`InvalidCid`, `CidTooLong`, `InvalidFileSize`,
/// `InvalidDuration`, `DurationTooShort`, `InsufficientDeposit`) are detected
/// before any funds move. Authorization errors (`UnauthorizedAdmin`,
/// `UnauthorizedUser`, `InvalidWithdrawalWallet`) are detected before any
/// mutation. `ArithmeticOverflow` aborts an operation whose checked arithmetic
/// would wrap. `InsufficientEscrowFunds` is a liquidity failure.
/// `NothingToClaim` is the legitimate empty-claim outcome, distinguishable
/// from a genuine failure so a caller can retry at a later time step.
#[derive(Clone, Copy, Debug, PartialEq, Eq, Structural)]
pub enum StorachaError {
    /// Requested duration is below the configured minimum.
    DurationTooShort,
    /// Deposit amount is below `file_size × duration × rate`.
    InsufficientDeposit,
    /// Only the configured admin may perform this action.
    UnauthorizedAdmin,
    /// Storage duration has expired.
    StorageExpired,
    /// File size must be greater than zero.
    InvalidFileSize,
    /// Duration must be greater than zero.
    InvalidDuration,
    /// A checked addition or multiplication would overflow.
    ArithmeticOverflow,
    /// The escrow vault does not hold enough funds.
    InsufficientEscrowFunds,
    /// The content identifier does not parse.
    InvalidCid,
    /// No vested funds are available to claim right now.
    NothingToClaim,
    /// Only the original depositor may extend this deposit.
    UnauthorizedUser,
    /// The nominated wallet does not match the configured withdrawal wallet.
    InvalidWithdrawalWallet,
    /// The content identifier exceeds the maximum allowed length.
    CidTooLong,
}

} // verus!
