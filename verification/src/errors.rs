//! Error taxonomy of the locker engine.
//!
//! Validation errors, arithmetic errors, and invariant-violation errors are
//! all reported to the caller and abort the operation with no state change.

use vstd::prelude::*;

verus! {

/// Why a locker operation was rejected.  Every fallible operation of the
/// engine reports one of these and leaves all involved state exactly as it
/// was before the attempt.
#[derive(Clone, Copy, Debug, PartialEq, Eq, Structural)]
pub enum ErrorCode {
    /// The given unlock date is in the past.
    UnlockInThePast,
    /// The given unlock date is beyond the sanity ceiling (a timestamp
    /// accidentally given in milliseconds rather than seconds).
    InvalidTimestamp,
    /// The given fee wallet is not the required fee destination.
    InvalidFeeWallet,
    /// An intermediate computation overflowed the native amount width.
    IntegerOverflow,
    /// After netting off the asset fee, nothing positive is left to lock.
    NothingToLock,
    /// A transfer's observed balance delta does not equal the requested
    /// amount exactly.
    InvalidAmountTransferred,
    /// A linear-emission schedule with no positive vesting period.
    InvalidPeriod,
    /// A relock may only extend the unlock date, never shorten it.
    CannotUnlockToEarlierDate,
    /// A cliff withdrawal before the unlock date.
    TooEarlyToWithdraw,
    /// A withdrawal or split amount that is zero or exceeds the vault
    /// balance.
    InvalidAmount,
    /// The country is absent from the ban list or is banned.
    InvalidCountry,
    /// Only the admin may create mint-fee records on a permissioned
    /// deployment.
    InitMintInfoNotAuthorized,
    /// A vesting-style locker was requested while the deployment disables
    /// linear emission.
    LinearEmissionDisabled,
    /// The signer is not the authority the operation demands.
    Unauthorized,
    /// A cross-reference constraint between the named accounts failed
    /// (wrong mint, wrong derived authority, or a vault that is not fresh).
    InvalidAccounts,
}

} // verus!
