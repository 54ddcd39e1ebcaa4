//! The persisted records of the locker deployment.
//!
//! One configuration record per deployment, one mint-fee record per asset
//! type, and one locker record per lock.  Field meaning, not byte layout,
//! is what the engine preserves.

use vstd::prelude::*;

verus! {

use crate::accounts::AccountId;

/// The unlock-date sanity ceiling: rejects timestamps accidentally given
/// in millisecond rather than second granularity.
pub const MAX_UNLOCK_DATE: i64 = 10000000000;

/// How many base units of the native currency make one whole unit; the
/// flat creation fee is quoted in whole units.
pub const NATIVE_UNITS_PER_WHOLE: u64 = 1000000000;

/// The one configuration record of a deployment: fee schedule, policy
/// flags, fee destination, ban-list reference, and admin identity.
/// Created once by the admin and mutated only by the admin.
#[derive(Clone, Copy, Debug, PartialEq, Eq, Structural)]
pub struct Config {
    /// The only identity allowed to mutate this record.
    pub admin: AccountId,
    /// Flat creation fee in whole units of the native currency.
    pub fee_in_sol: u64,
    /// Numerator of the proportional fee over the deposited asset.
    pub fee_in_token_numerator: u64,
    /// Denominator of the proportional fee over the deposited asset.
    pub fee_in_token_denominator: u64,
    /// If set, fee-exempt paths are disabled: every asset type must be
    /// individually paid for, on every relevant operation.
    pub mint_info_permissioned: bool,
    /// If unset, vesting-style lockers are globally disabled.
    pub has_linear_emission: bool,
    /// Where fees are collected.
    pub fee_wallet: AccountId,
    /// The ban-list registry this deployment consults.
    pub country_list: AccountId,
    /// Address-derivation seed of the record itself.
    pub bump: u8,
}

/// Arguments of `init_config`.
#[derive(Clone, Copy, Debug, PartialEq, Eq, Structural)]
pub struct CreateConfigArgs {
    pub fee_in_sol: u64,
    pub fee_in_token_numerator: u64,
    pub fee_in_token_denominator: u64,
    pub mint_info_permissioned: bool,
    pub has_linear_emission: bool,
    pub bump: u8,
}

/// Arguments of `update_config`: each absent field keeps its current
/// value.
#[derive(Clone, Copy, Debug, PartialEq, Eq)]
pub struct UpdateConfigArgs {
    pub fee_in_sol: Option<u64>,
    pub fee_in_token_numerator: Option<u64>,
    pub fee_in_token_denominator: Option<u64>,
    pub mint_info_permissioned: Option<bool>,
    pub has_linear_emission: Option<bool>,
}

/// Per-asset-type record of whether the one-time native fee has been paid.
#[derive(Clone, Copy, Debug, PartialEq, Eq, Structural)]
pub struct MintInfo {
    /// Address-derivation seed of the record.
    pub bump: u8,
    /// Set once the one-time native fee has been paid for this asset type
    /// on a non-permissioned deployment; never relied upon under the
    /// permissioned policy.
    pub fee_paid: bool,
}

impl Default for MintInfo {
    /// A fresh record: no fee paid yet.
    fn default() -> (r: Self)
        ensures
            r == (MintInfo { bump: 0, fee_paid: false }),
    {
        Self { bump: 0, fee_paid: false }
    }
}

/// A single time- or vesting-governed custody record for one depositor's
/// asset quantity.
#[derive(Clone, Copy, Debug, PartialEq, Eq)]
pub struct Locker {
    /// The only identity allowed to relock, withdraw, split or reassign.
    pub owner: AccountId,
    /// Two-byte country code recorded at creation.
    pub country_code: [u8; 2],
    /// The current unlock timestamp; only ever extended.
    pub current_unlock_date: i64,
    /// Start of the linear-emission schedule, or `None` for a cliff
    /// release.
    pub start_emission: Option<i64>,
    /// The remaining deposited amount; always equals the vault's actual
    /// held balance.
    pub deposited_amount: u64,
    /// The vault holding this locker's balance.
    pub vault: AccountId,
    /// Derivation seed of the vault authority.
    pub vault_bump: u8,
}

/// Arguments of `create_locker`.
#[derive(Clone, Debug, PartialEq, Eq)]
pub struct CreateLockerArgs {
    /// Amount taken from the funding wallet; the asset fee is netted off
    /// it.
    pub amount: u64,
    /// When the lock opens.
    pub unlock_date: i64,
    /// Two-byte country code of the depositor.
    pub country_code: String,
    /// Start of linear emission, or `None` for a cliff release.
    pub start_emission: Option<i64>,
    /// Derivation seed for the new vault's authority.
    pub vault_bump: u8,
    /// Whether the depositor chose to pay the one-time fee in the native
    /// currency rather than in the deposited asset.
    pub fee_in_sol: bool,
}

/// Arguments of `split_locker`.
#[derive(Clone, Copy, Debug, PartialEq, Eq, Structural)]
pub struct SplitLockerArgs {
    /// Derivation seed of the new locker record.
    pub locker_bump: u8,
    /// Derivation seed for the new vault's authority.
    pub vault_bump: u8,
    /// Amount moved from the old vault into the new one.
    pub amount: u64,
}

} // verus!
