//! The locker lifecycle engine: creation, relocking, ownership transfer,
//! incremental deposit, vesting withdrawal, splitting, and closing of
//! individual locks.
//!
//! Every operation is a single atomic unit against a fixed set of named
//! accounts: it either fully applies or fails with a typed error and all
//! involved state exactly as before the attempt.  Each operation first
//! runs a validation pipeline — identity authorization, derivation-seed
//! correctness and cross-reference constraints — before any state
//! mutation.

use vstd::prelude::*;

verus! {

use crate::accounts::{
    spec_associated_token_address, associated_token_address, spec_derive_authority,
    derive_authority, token_transfer, AccountId, TokenAccount,
};
use crate::country_list::{spec_str_code_key, string_to_byte_array, CountryBanList};
use crate::errors::ErrorCode;
use crate::fees::{
    pay_fee_in_sol, pay_fee_in_tokens, should_pay_in_sol, should_pay_in_tokens,
    spec_should_pay_in_sol, spec_should_pay_in_tokens, spec_sol_fee_lamports,
    spec_sol_fee_payable, spec_token_fee, spec_token_fee_payable,
};
use crate::math::{mul_div, spec_mul_div};
use crate::state::{
    Config, CreateConfigArgs, CreateLockerArgs, Locker, MintInfo, SplitLockerArgs,
    UpdateConfigArgs, MAX_UNLOCK_DATE,
};

/// The accounts `init_config` runs against: the signing admin and the two
/// referenced registries.
#[derive(Clone, Copy, Debug, PartialEq, Eq, Structural)]
pub struct InitConfig {
    /// The signing admin; recorded as the configuration's owner.
    pub admin: AccountId,
    /// Where fees will be collected.
    pub fee_wallet: AccountId,
    /// The ban-list registry this deployment will consult.
    pub country_list: AccountId,
}

/// Creates the one configuration record of a deployment from the admin's
/// arguments.
pub fn init_config(accs: &InitConfig, args: CreateConfigArgs) -> (config: Config)
    ensures
        config == (Config {
            admin: accs.admin,
            fee_in_sol: args.fee_in_sol,
            fee_in_token_numerator: args.fee_in_token_numerator,
            fee_in_token_denominator: args.fee_in_token_denominator,
            mint_info_permissioned: args.mint_info_permissioned,
            has_linear_emission: args.has_linear_emission,
            fee_wallet: accs.fee_wallet,
            country_list: accs.country_list,
            bump: args.bump,
        }),
{
    Config {
        admin: accs.admin,
        fee_in_sol: args.fee_in_sol,
        fee_in_token_numerator: args.fee_in_token_numerator,
        fee_in_token_denominator: args.fee_in_token_denominator,
        mint_info_permissioned: args.mint_info_permissioned,
        has_linear_emission: args.has_linear_emission,
        fee_wallet: accs.fee_wallet,
        country_list: accs.country_list,
        bump: args.bump,
    }
}

/// The accounts `update_config` runs against.
#[derive(Clone, Copy, Debug, PartialEq, Eq, Structural)]
pub struct UpdateConfig {
    /// The signer; must equal the configuration's admin.
    pub admin: AccountId,
    /// The new fee destination.
    pub fee_wallet: AccountId,
    /// The new ban-list reference.
    pub country_list: AccountId,
}

/// Admin-only full-field update of the configuration: each absent
/// argument keeps its current value, while the fee destination and
/// ban-list reference are always taken from the named accounts.
pub fn update_config(accs: &UpdateConfig, config: &mut Config, args: UpdateConfigArgs) -> (r:
    Result<(), ErrorCode>)
    ensures
        r is Ok <==> accs.admin == old(config).admin,
        r is Err ==> r == Err::<(), ErrorCode>(ErrorCode::Unauthorized) && *final(config) == *old(
            config,
        ),
        r is Ok ==> *final(config) == (Config {
            admin: old(config).admin,
            fee_in_sol: args.fee_in_sol.unwrap_or(old(config).fee_in_sol),
            fee_in_token_numerator: args.fee_in_token_numerator.unwrap_or(
                old(config).fee_in_token_numerator,
            ),
            fee_in_token_denominator: args.fee_in_token_denominator.unwrap_or(
                old(config).fee_in_token_denominator,
            ),
            mint_info_permissioned: args.mint_info_permissioned.unwrap_or(
                old(config).mint_info_permissioned,
            ),
            has_linear_emission: args.has_linear_emission.unwrap_or(
                old(config).has_linear_emission,
            ),
            fee_wallet: accs.fee_wallet,
            country_list: accs.country_list,
            bump: old(config).bump,
        }),
{
    if accs.admin != config.admin {
        return Err(ErrorCode::Unauthorized);
    }
    config.fee_in_sol = args.fee_in_sol.unwrap_or(config.fee_in_sol);
    config.fee_in_token_numerator = args.fee_in_token_numerator.unwrap_or(
        config.fee_in_token_numerator,
    );
    config.fee_in_token_denominator = args.fee_in_token_denominator.unwrap_or(
        config.fee_in_token_denominator,
    );
    config.mint_info_permissioned = args.mint_info_permissioned.unwrap_or(
        config.mint_info_permissioned,
    );
    config.has_linear_emission = args.has_linear_emission.unwrap_or(config.has_linear_emission);
    config.fee_wallet = accs.fee_wallet;
    config.country_list = accs.country_list;
    Ok(())
}

/// The accounts `init_mint_info` runs against.
#[derive(Clone, Copy, Debug, PartialEq, Eq, Structural)]
pub struct InitMintInfo {
    /// The signer paying for the new record.
    pub payer: AccountId,
    /// The asset type the record is for.
    pub mint: AccountId,
    /// The deployment configuration.
    pub config: Config,
}

/// Creates the per-asset-type mint-fee record: no fee paid yet.  On a
/// permissioned deployment only the admin may do so.
pub fn init_mint_info(accs: &InitMintInfo, bump: u8) -> (r: Result<MintInfo, ErrorCode>)
    ensures
        r is Ok <==> (!accs.config.mint_info_permissioned || accs.payer == accs.config.admin),
        r is Ok ==> r == Ok::<MintInfo, ErrorCode>(MintInfo { bump, fee_paid: false }),
        r is Err ==> r == Err::<MintInfo, ErrorCode>(ErrorCode::InitMintInfoNotAuthorized),
{
    if accs.config.mint_info_permissioned && accs.payer != accs.config.admin {
        return Err(ErrorCode::InitMintInfoNotAuthorized);
    }
    Ok(MintInfo { bump, fee_paid: false })
}

/// The accounts `relock` runs against.
#[derive(Clone, Copy, Debug, PartialEq, Eq)]
pub struct Relock {
    /// The locker being extended.
    pub locker: Locker,
    /// The signer; must be the locker's owner.
    pub owner: AccountId,
}

/// Owner-only monotonic extension of the unlock date: the new date must
/// be strictly later than the current one.  No fund movement.
pub fn relock(accs: &mut Relock, unlock_date: i64) -> (r: Result<(), ErrorCode>)
    ensures
        r is Err ==> *final(accs) == *old(accs),
        old(accs).locker.owner != old(accs).owner <==> r == Err::<(), ErrorCode>(
            ErrorCode::Unauthorized,
        ),
        old(accs).locker.owner == old(accs).owner && unlock_date <= old(
            accs,
        ).locker.current_unlock_date <==> r == Err::<(), ErrorCode>(
            ErrorCode::CannotUnlockToEarlierDate,
        ),
        r is Ok <==> old(accs).locker.owner == old(accs).owner && unlock_date > old(
            accs,
        ).locker.current_unlock_date,
        r is Ok ==> *final(accs) == (Relock {
            locker: (Locker { current_unlock_date: unlock_date, ..old(accs).locker }),
            ..*old(accs)
        }),
{
    if accs.locker.owner != accs.owner {
        return Err(ErrorCode::Unauthorized);
    }
    if unlock_date <= accs.locker.current_unlock_date {
        return Err(ErrorCode::CannotUnlockToEarlierDate);
    }
    accs.locker.current_unlock_date = unlock_date;
    Ok(())
}

/// The accounts `transfer_ownership` runs against.
#[derive(Clone, Copy, Debug, PartialEq, Eq)]
pub struct TransferOwnership {
    /// The locker being reassigned.
    pub locker: Locker,
    /// The signer; must be the locker's current owner.
    pub owner: AccountId,
    /// The identity the locker is reassigned to.
    pub new_owner: AccountId,
}

/// Owner-only reassignment of the owner identity; vault and schedule
/// untouched.
pub fn transfer_ownership(accs: &mut TransferOwnership) -> (r: Result<(), ErrorCode>)
    ensures
        r is Err ==> *final(accs) == *old(accs),
        r is Ok <==> old(accs).locker.owner == old(accs).owner,
        r is Err ==> r == Err::<(), ErrorCode>(ErrorCode::Unauthorized),
        r is Ok ==> *final(accs) == (TransferOwnership {
            locker: (Locker { owner: old(accs).new_owner, ..old(accs).locker }),
            ..*old(accs)
        }),
{
    if accs.locker.owner != accs.owner {
        return Err(ErrorCode::Unauthorized);
    }
    accs.locker.owner = accs.new_owner;
    Ok(())
}

/// The accounts `increment_lock` runs against.
#[derive(Clone, Copy, Debug, PartialEq, Eq)]
pub struct IncrementLock {
    /// The locker being topped up.
    pub locker: Locker,
    /// Address of the vault account; must be the locker's vault.
    pub vault_address: AccountId,
    /// The locker's vault.
    pub vault: TokenAccount,
    /// The mint-fee record of the vault's asset type.
    pub mint_info: MintInfo,
    /// The signing authority of the funding wallet.
    pub funding_wallet_authority: AccountId,
    /// Where the deposit is taken from.
    pub funding_wallet: TokenAccount,
    /// Address of the fee-collection holding handed in by the caller.
    pub fee_wallet_address: AccountId,
    /// The fee-collection holding itself.
    pub fee_wallet: TokenAccount,
    /// The deployment configuration.
    pub config: Config,
}

/// The cross-reference constraints of `increment_lock`: the vault holds
/// the funding wallet's asset type and is the locker's own vault.
pub open spec fn increment_cross_ok(a: IncrementLock) -> bool {
    &&& a.vault.mint == a.funding_wallet.mint
    &&& a.locker.vault == a.vault_address
}

/// Everything `increment_lock` demands before it moves any funds.
pub open spec fn spec_increment_ok(a: IncrementLock, amount: u64) -> bool {
    let fee_due = spec_should_pay_in_tokens(
        a.config.mint_info_permissioned,
        false,
        a.mint_info.fee_paid,
    );
    let fee_opt = spec_token_fee(a.config, amount);
    let fee: u64 = if fee_due {
        fee_opt.unwrap()
    } else {
        0u64
    };
    &&& increment_cross_ok(a)
    &&& a.funding_wallet.owner == a.funding_wallet_authority
    &&& (fee_due ==> {
        &&& fee_opt is Some
        &&& a.fee_wallet_address == spec_associated_token_address(
            a.config.fee_wallet,
            a.funding_wallet.mint,
        )
        &&& fee_opt.unwrap() <= a.funding_wallet.amount
        &&& a.fee_wallet.amount + fee_opt.unwrap() <= u64::MAX
        &&& fee_opt.unwrap() <= amount
    })
    &&& amount <= a.funding_wallet.amount
    &&& a.vault.amount + (amount - fee) <= u64::MAX
    &&& a.locker.deposited_amount + (amount - fee) <= u64::MAX
}

/// Incremental deposit into an existing lock, authorized by the funding
/// wallet's authority.  Applies the asset-fee policy only — the native
/// fee is a creation-time-only charge — nets the fee off, transfers the
/// remainder into the existing vault, and adds it to the deposited
/// amount with overflow checking.
pub fn increment_lock(accs: &mut IncrementLock, amount: u64) -> (r: Result<(), ErrorCode>)
    ensures
        r is Err ==> *final(accs) == *old(accs),
        r is Ok <==> spec_increment_ok(*old(accs), amount),
        ({
            let a = *old(accs);
            let fee_due = spec_should_pay_in_tokens(
                a.config.mint_info_permissioned,
                false,
                a.mint_info.fee_paid,
            );
            let fee_opt = spec_token_fee(a.config, amount);
            let fee: u64 = if fee_due {
                fee_opt.unwrap()
            } else {
                0u64
            };
            let ata_ok = a.fee_wallet_address == spec_associated_token_address(
                a.config.fee_wallet,
                a.funding_wallet.mint,
            );
            &&& (r is Ok ==> *final(accs) == (IncrementLock {
                locker: (Locker {
                    deposited_amount: (a.locker.deposited_amount + amount - fee) as u64,
                    ..a.locker
                }),
                vault: (TokenAccount { amount: (a.vault.amount + amount - fee) as u64, ..a.vault }),
                funding_wallet: (TokenAccount {
                    amount: (a.funding_wallet.amount - amount) as u64,
                    ..a.funding_wallet
                }),
                fee_wallet: (TokenAccount {
                    amount: (a.fee_wallet.amount + fee) as u64,
                    ..a.fee_wallet
                }),
                ..a
            }))
            &&& (!increment_cross_ok(a) <==> r == Err::<(), ErrorCode>(ErrorCode::InvalidAccounts))
            &&& (increment_cross_ok(a) && a.funding_wallet.owner != a.funding_wallet_authority
                <==> r == Err::<(), ErrorCode>(ErrorCode::Unauthorized))
            &&& (increment_cross_ok(a) && a.funding_wallet.owner == a.funding_wallet_authority
                && fee_due && fee_opt is None ==> r == Err::<(), ErrorCode>(
                ErrorCode::IntegerOverflow,
            ))
            &&& (increment_cross_ok(a) && a.funding_wallet.owner == a.funding_wallet_authority
                && fee_due && fee_opt is Some && !ata_ok ==> r == Err::<(), ErrorCode>(
                ErrorCode::InvalidFeeWallet,
            ))
            &&& (increment_cross_ok(a) && a.funding_wallet.owner == a.funding_wallet_authority
                && fee_due && fee_opt is Some && ata_ok && fee_opt.unwrap()
                > a.funding_wallet.amount ==> r == Err::<(), ErrorCode>(
                ErrorCode::InvalidAmountTransferred,
            ))
            &&& (increment_cross_ok(a) && a.funding_wallet.owner == a.funding_wallet_authority && (
            !fee_due || (fee_opt is Some && ata_ok && fee_opt.unwrap() <= a.funding_wallet.amount
                && a.fee_wallet.amount + fee_opt.unwrap() <= u64::MAX && fee_opt.unwrap()
                <= amount)) && amount > a.funding_wallet.amount ==> r == Err::<(), ErrorCode>(
                ErrorCode::InvalidAmountTransferred,
            ))
        }),
{
    if accs.vault.mint != accs.funding_wallet.mint || accs.locker.vault != accs.vault_address {
        return Err(ErrorCode::InvalidAccounts);
    }
    if accs.funding_wallet.owner != accs.funding_wallet_authority {
        return Err(ErrorCode::Unauthorized);
    }
    // the third argument is false: the native fee is never charged here
    let fee_due = should_pay_in_tokens(&accs.config, &accs.mint_info, false);
    let mut lock_fee: u64 = 0;
    if fee_due {
        lock_fee = match mul_div(
            amount,
            accs.config.fee_in_token_numerator,
            accs.config.fee_in_token_denominator,
        ) {
            Some(f) => f,
            None => {
                return Err(ErrorCode::IntegerOverflow);
            },
        };
        let canonical = associated_token_address(accs.config.fee_wallet, accs.funding_wallet.mint);
        if canonical != accs.fee_wallet_address {
            return Err(ErrorCode::InvalidFeeWallet);
        }
        if lock_fee > accs.funding_wallet.amount {
            return Err(ErrorCode::InvalidAmountTransferred);
        }
        if lock_fee > u64::MAX - accs.fee_wallet.amount {
            return Err(ErrorCode::IntegerOverflow);
        }
        if lock_fee > amount {
            return Err(ErrorCode::IntegerOverflow);
        }
    }
    let amount_to_lock = amount - lock_fee;
    if amount > accs.funding_wallet.amount {
        return Err(ErrorCode::InvalidAmountTransferred);
    }
    if amount_to_lock > u64::MAX - accs.vault.amount {
        return Err(ErrorCode::IntegerOverflow);
    }
    let new_deposited = match accs.locker.deposited_amount.checked_add(amount_to_lock) {
        Some(v) => v,
        None => {
            return Err(ErrorCode::IntegerOverflow);
        },
    };
    if fee_due {
        match pay_fee_in_tokens(
            &accs.config,
            &mut accs.funding_wallet,
            accs.fee_wallet_address,
            &mut accs.fee_wallet,
            amount,
        ) {
            Ok(_) => {},
            Err(e) => {
                return Err(e);
            },
        }
    }
    match token_transfer(&mut accs.funding_wallet, &mut accs.vault, amount_to_lock) {
        Ok(()) => {},
        Err(e) => {
            return Err(e);
        },
    }
    accs.locker.deposited_amount = new_deposited;
    Ok(())
}

/// Where `now` falls inside the emission window `[lo, hi]`.
pub open spec fn spec_clamp(now: i64, lo: i64, hi: i64) -> int {
    if now < lo {
        lo as int
    } else if now > hi {
        hi as int
    } else {
        now as int
    }
}

/// The amount a linear-emission schedule has unlocked by `now`: the
/// deposited amount scaled by elapsed time over the full period, floored.
/// Meaningful when `start < unlock`; always defined then, since the
/// elapsed share never exceeds the whole.
pub open spec fn spec_linear_unlocked(deposited: u64, start: i64, unlock: i64, now: i64) -> Option<
    u64,
> {
    let elapsed = spec_clamp(now, start, unlock) - start;
    let full = unlock - start;
    spec_mul_div(deposited, elapsed as u64, full as u64)
}

/// Whether the locker's schedule admits withdrawal at `now` at all: a
/// linear schedule needs a strictly positive period, a cliff release
/// opens strictly after the unlock date.
pub open spec fn spec_schedule_open(l: Locker, now: i64) -> bool {
    match l.start_emission {
        Some(s) => l.current_unlock_date - s > 0,
        None => now > l.current_unlock_date,
    }
}

/// The amount a withdrawal of `requested` actually moves: capped by the
/// schedule on a linear locker and by the vault balance on a cliff
/// locker.  Meaningful when the schedule is open.
pub open spec fn spec_withdraw_amount(l: Locker, vault_amount: u64, now: i64, requested: u64) -> u64 {
    match l.start_emission {
        Some(s) => {
            let unlocked = spec_linear_unlocked(
                l.deposited_amount,
                s,
                l.current_unlock_date,
                now,
            ).unwrap();
            if unlocked <= requested {
                unlocked
            } else {
                requested
            }
        },
        None => if requested <= vault_amount {
            requested
        } else {
            vault_amount
        },
    }
}

/// The accounts `withdraw_funds` runs against.  The locker and its vault
/// are destroyed — their storage reclaimed to the owner — exactly when
/// the withdrawal drains the vault, so both are held as options.
#[derive(Clone, Copy, Debug, PartialEq, Eq)]
pub struct WithdrawFunds {
    /// Address of the locker record.
    pub locker_address: AccountId,
    /// The locker being drawn from; `None` once closed.
    pub locker: Option<Locker>,
    /// The signer; must be the locker's owner.
    pub owner: AccountId,
    /// The derived authority handed in as proof; must match the one
    /// derived from the locker's address and stored seed.
    pub vault_authority: AccountId,
    /// The locker's vault; `None` once closed.
    pub vault: Option<TokenAccount>,
    /// Where the withdrawn funds go.
    pub target_wallet: TokenAccount,
}

/// The cross-reference constraints of `withdraw_funds`: the vault is
/// controlled by the handed-in authority and the target holds the same
/// asset type.
pub open spec fn withdraw_cross_ok(a: WithdrawFunds) -> bool {
    &&& a.vault.unwrap().owner == a.vault_authority
    &&& a.target_wallet.mint == a.vault.unwrap().mint
}

/// The authorization demands of `withdraw_funds`: the owner signed, and
/// the handed-in authority is the one derived from the locker's address
/// and its stored seed — the only authority the vault obeys.
pub open spec fn withdraw_auth_ok(a: WithdrawFunds) -> bool {
    &&& a.locker.unwrap().owner == a.owner
    &&& a.vault_authority == spec_derive_authority(a.locker_address, a.locker.unwrap().vault_bump)
}

/// Everything `withdraw_funds` demands before it moves any funds.
pub open spec fn spec_withdraw_ok(a: WithdrawFunds, now: i64, requested: u64) -> bool {
    let l = a.locker.unwrap();
    let v = a.vault.unwrap();
    let amt = spec_withdraw_amount(l, v.amount, now, requested);
    &&& withdraw_cross_ok(a)
    &&& withdraw_auth_ok(a)
    &&& spec_schedule_open(l, now)
    &&& amt > 0
    &&& amt <= v.amount
    &&& a.target_wallet.amount + amt <= u64::MAX
    &&& amt <= l.deposited_amount
}

/// Owner-only withdrawal under the locker's release model.  A linear
/// schedule releases the deposited amount scaled by elapsed time; a cliff
/// schedule releases the whole balance strictly after the unlock date.
/// The transfer is authorized by the derived vault authority, the
/// deposited amount mirrors the vault's balance delta exactly, and a
/// drained vault closes both the vault and the locker record.
pub fn withdraw_funds(accs: &mut WithdrawFunds, now: i64, amount: u64) -> (r: Result<
    u64,
    ErrorCode,
>)
    requires
        old(accs).locker is Some,
        old(accs).vault is Some,
    ensures
        r is Err ==> *final(accs) == *old(accs),
        r is Ok <==> spec_withdraw_ok(*old(accs), now, amount),
        ({
            let a = *old(accs);
            let l = a.locker.unwrap();
            let v = a.vault.unwrap();
            let amt = spec_withdraw_amount(l, v.amount, now, amount);
            &&& (r is Ok ==> r == Ok::<u64, ErrorCode>(amt))
            // a withdrawal that drains the vault closes vault and locker
            &&& (r is Ok ==> (final(accs).locker is None <==> amt == v.amount))
            &&& (r is Ok ==> (final(accs).vault is None <==> amt == v.amount))
            &&& (r is Ok ==> *final(accs) == (WithdrawFunds {
                locker: if v.amount == amt {
                    None
                } else {
                    Some(
                        Locker {
                            deposited_amount: (l.deposited_amount - amt) as u64,
                            ..l
                        },
                    )
                },
                vault: if v.amount == amt {
                    None
                } else {
                    Some(TokenAccount { amount: (v.amount - amt) as u64, ..v })
                },
                target_wallet: (TokenAccount {
                    amount: (a.target_wallet.amount + amt) as u64,
                    ..a.target_wallet
                }),
                ..a
            }))
            &&& (!withdraw_cross_ok(a) <==> r == Err::<u64, ErrorCode>(ErrorCode::InvalidAccounts))
            &&& (withdraw_cross_ok(a) && !withdraw_auth_ok(a) <==> r == Err::<u64, ErrorCode>(
                ErrorCode::Unauthorized,
            ))
            &&& (withdraw_cross_ok(a) && withdraw_auth_ok(a) && l.start_emission is Some
                && !spec_schedule_open(l, now) <==> r == Err::<u64, ErrorCode>(
                ErrorCode::InvalidPeriod,
            ))
            &&& (withdraw_cross_ok(a) && withdraw_auth_ok(a) && l.start_emission is None
                && !spec_schedule_open(l, now) <==> r == Err::<u64, ErrorCode>(
                ErrorCode::TooEarlyToWithdraw,
            ))
            &&& (withdraw_cross_ok(a) && withdraw_auth_ok(a) && spec_schedule_open(l, now) && (amt
                == 0 || amt > v.amount) <==> r == Err::<u64, ErrorCode>(ErrorCode::InvalidAmount))
            &&& (withdraw_cross_ok(a) && withdraw_auth_ok(a) && spec_schedule_open(l, now) && amt
                > 0 && amt <= v.amount && (a.target_wallet.amount + amt > u64::MAX || amt
                > l.deposited_amount) <==> r == Err::<u64, ErrorCode>(ErrorCode::IntegerOverflow))
        }),
{
    let locker = accs.locker.unwrap();
    let vault = accs.vault.unwrap();
    if vault.owner != accs.vault_authority || accs.target_wallet.mint != vault.mint {
        return Err(ErrorCode::InvalidAccounts);
    }
    if locker.owner != accs.owner {
        return Err(ErrorCode::Unauthorized);
    }
    let authority = derive_authority(accs.locker_address, locker.vault_bump);
    if accs.vault_authority != authority {
        return Err(ErrorCode::Unauthorized);
    }
    let amount_to_transfer: u64 = match locker.start_emission {
        Some(start_emission) => {
            let full_i: i128 = (locker.current_unlock_date as i128) - (start_emission as i128);
            if full_i <= 0 {
                return Err(ErrorCode::InvalidPeriod);
            }
            let clamped: i64 = if now < start_emission {
                start_emission
            } else if now > locker.current_unlock_date {
                locker.current_unlock_date
            } else {
                now
            };
            let elapsed_i: i128 = (clamped as i128) - (start_emission as i128);
            let full_period: u64 = full_i as u64;
            let elapsed: u64 = elapsed_i as u64;
            proof {
                crate::math::lemma_mul_div_le_basis(locker.deposited_amount, elapsed, full_period);
            }
            let unlocked = match mul_div(locker.deposited_amount, elapsed, full_period) {
                Some(u) => u,
                None => {
                    return Err(ErrorCode::IntegerOverflow);
                },
            };
            if unlocked <= amount {
                unlocked
            } else {
                amount
            }
        },
        None => {
            if now <= locker.current_unlock_date {
                return Err(ErrorCode::TooEarlyToWithdraw);
            }
            if amount <= vault.amount {
                amount
            } else {
                vault.amount
            }
        },
    };
    if amount_to_transfer == 0 {
        return Err(ErrorCode::InvalidAmount);
    }
    if amount_to_transfer > vault.amount {
        return Err(ErrorCode::InvalidAmount);
    }
    if amount_to_transfer > u64::MAX - accs.target_wallet.amount {
        return Err(ErrorCode::IntegerOverflow);
    }
    // the deposited amount mirrors every transfer out of the vault
    let new_deposited = match locker.deposited_amount.checked_sub(amount_to_transfer) {
        Some(v) => v,
        None => {
            return Err(ErrorCode::IntegerOverflow);
        },
    };
    let mut vault_after = vault;
    match token_transfer(&mut vault_after, &mut accs.target_wallet, amount_to_transfer) {
        Ok(()) => {},
        Err(e) => {
            return Err(e);
        },
    }
    if vault_after.amount == 0 {
        // a fully drained lock is garbage-collected, not left empty
        accs.locker = None;
        accs.vault = None;
    } else {
        accs.locker = Some(Locker { deposited_amount: new_deposited, ..locker });
        accs.vault = Some(vault_after);
    }
    Ok(amount_to_transfer)
}

/// The accounts `split_locker` runs against.  The old locker and vault
/// are destroyed exactly when the split drains the old vault.
#[derive(Clone, Copy, Debug, PartialEq, Eq)]
pub struct SplitLocker {
    /// Address of the old locker record.
    pub old_locker_address: AccountId,
    /// The locker being split; `None` once closed.
    pub old_locker: Option<Locker>,
    /// The signer; must be the old locker's owner.
    pub old_owner: AccountId,
    /// The derived authority handed in as proof for the old vault.
    pub old_vault_authority: AccountId,
    /// The old locker's vault; `None` once closed.
    pub old_vault: Option<TokenAccount>,
    /// Address of the new locker record being created.
    pub new_locker_address: AccountId,
    /// The owner of the new locker.
    pub new_owner: AccountId,
    /// The derived authority of the new vault.
    pub new_vault_authority: AccountId,
    /// Address of the new vault account.
    pub new_vault_address: AccountId,
    /// The fresh vault the split amount moves into.
    pub new_vault: TokenAccount,
}

/// The cross-reference constraints of `split_locker`: the old vault obeys
/// the handed-in authority, the new vault holds the same asset type, is
/// fresh, and is controlled by the authority derived for the new locker.
pub open spec fn split_cross_ok(a: SplitLocker, args: SplitLockerArgs) -> bool {
    &&& a.old_vault.unwrap().owner == a.old_vault_authority
    &&& a.new_vault.mint == a.old_vault.unwrap().mint
    &&& a.new_vault_authority == spec_derive_authority(a.new_locker_address, args.vault_bump)
    &&& a.new_vault.owner == a.new_vault_authority
    &&& a.new_vault.amount == 0
}

/// The authorization demands of `split_locker`.
pub open spec fn split_auth_ok(a: SplitLocker) -> bool {
    &&& a.old_locker.unwrap().owner == a.old_owner
    &&& a.old_vault_authority == spec_derive_authority(
        a.old_locker_address,
        a.old_locker.unwrap().vault_bump,
    )
}

/// Everything `split_locker` demands before it moves any funds.
pub open spec fn spec_split_ok(a: SplitLocker, args: SplitLockerArgs) -> bool {
    &&& split_cross_ok(a, args)
    &&& split_auth_ok(a)
    &&& 0 < args.amount
    &&& args.amount <= a.old_vault.unwrap().amount
    &&& args.amount <= a.old_locker.unwrap().deposited_amount
}

/// The locker a successful split creates: same country code, unlock date
/// and vesting start as the original, a new owner and a new vault, and
/// exactly the split amount deposited.
pub open spec fn spec_split_new_locker(a: SplitLocker, args: SplitLockerArgs) -> Locker {
    Locker {
        owner: a.new_owner,
        country_code: a.old_locker.unwrap().country_code,
        current_unlock_date: a.old_locker.unwrap().current_unlock_date,
        start_emission: a.old_locker.unwrap().start_emission,
        deposited_amount: args.amount,
        vault: a.new_vault_address,
        vault_bump: args.vault_bump,
    }
}

/// Splits a fraction of a lock into a fresh locker carrying the same
/// schedule, so an owner can transfer or separately manage part of a lock
/// without disturbing the remainder.  No fee is charged: this is an
/// internal reallocation, not a deposit.  Balance is conserved exactly,
/// and draining the old vault closes the old vault and locker.
pub fn split_locker(accs: &mut SplitLocker, args: SplitLockerArgs) -> (r: Result<
    Locker,
    ErrorCode,
>)
    requires
        old(accs).old_locker is Some,
        old(accs).old_vault is Some,
    ensures
        r is Err ==> *final(accs) == *old(accs),
        r is Ok <==> spec_split_ok(*old(accs), args),
        ({
            let a = *old(accs);
            let l = a.old_locker.unwrap();
            let v = a.old_vault.unwrap();
            &&& (r is Ok ==> r == Ok::<Locker, ErrorCode>(spec_split_new_locker(a, args)))
            // a split that drains the old vault closes old vault and locker
            &&& (r is Ok ==> (final(accs).old_locker is None <==> args.amount == v.amount))
            &&& (r is Ok ==> (final(accs).old_vault is None <==> args.amount == v.amount))
            &&& (r is Ok ==> *final(accs) == (SplitLocker {
                old_locker: if v.amount == args.amount {
                    None
                } else {
                    Some(
                        Locker {
                            deposited_amount: (l.deposited_amount - args.amount) as u64,
                            ..l
                        },
                    )
                },
                old_vault: if v.amount == args.amount {
                    None
                } else {
                    Some(TokenAccount { amount: (v.amount - args.amount) as u64, ..v })
                },
                new_vault: (TokenAccount { amount: args.amount, ..a.new_vault }),
                ..a
            }))
            &&& (!split_cross_ok(a, args) <==> r == Err::<Locker, ErrorCode>(
                ErrorCode::InvalidAccounts,
            ))
            &&& (split_cross_ok(a, args) && !split_auth_ok(a) <==> r == Err::<Locker, ErrorCode>(
                ErrorCode::Unauthorized,
            ))
            &&& (split_cross_ok(a, args) && split_auth_ok(a) && (args.amount == 0 || args.amount
                > v.amount) <==> r == Err::<Locker, ErrorCode>(ErrorCode::InvalidAmount))
            &&& (split_cross_ok(a, args) && split_auth_ok(a) && 0 < args.amount && args.amount
                <= v.amount && args.amount > l.deposited_amount <==> r == Err::<
                Locker,
                ErrorCode,
            >(ErrorCode::IntegerOverflow))
        }),
{
    let old_locker = accs.old_locker.unwrap();
    let old_vault = accs.old_vault.unwrap();
    let new_authority = derive_authority(accs.new_locker_address, args.vault_bump);
    if old_vault.owner != accs.old_vault_authority || accs.new_vault.mint != old_vault.mint
        || accs.new_vault_authority != new_authority || accs.new_vault.owner
        != accs.new_vault_authority || accs.new_vault.amount != 0 {
        return Err(ErrorCode::InvalidAccounts);
    }
    if old_locker.owner != accs.old_owner {
        return Err(ErrorCode::Unauthorized);
    }
    let old_authority = derive_authority(accs.old_locker_address, old_locker.vault_bump);
    if accs.old_vault_authority != old_authority {
        return Err(ErrorCode::Unauthorized);
    }
    if args.amount == 0 {
        return Err(ErrorCode::InvalidAmount);
    }
    if args.amount > old_vault.amount {
        return Err(ErrorCode::InvalidAmount);
    }
    // the deposited amount mirrors every transfer out of the old vault
    let new_deposited = match old_locker.deposited_amount.checked_sub(args.amount) {
        Some(v) => v,
        None => {
            return Err(ErrorCode::IntegerOverflow);
        },
    };
    let mut old_vault_after = old_vault;
    match token_transfer(&mut old_vault_after, &mut accs.new_vault, args.amount) {
        Ok(()) => {},
        Err(e) => {
            return Err(e);
        },
    }
    if old_vault_after.amount == 0 {
        // a fully drained lock is garbage-collected, not left empty
        accs.old_locker = None;
        accs.old_vault = None;
    } else {
        accs.old_locker = Some(Locker { deposited_amount: new_deposited, ..old_locker });
        accs.old_vault = Some(old_vault_after);
    }
    let new_locker = Locker {
        owner: accs.new_owner,
        country_code: old_locker.country_code,
        current_unlock_date: old_locker.current_unlock_date,
        start_emission: old_locker.start_emission,
        deposited_amount: args.amount,
        vault: accs.new_vault_address,
        vault_bump: args.vault_bump,
    };
    Ok(new_locker)
}

/// The accounts `close_locker` runs against.
#[derive(Clone, Copy, Debug, PartialEq, Eq)]
pub struct CloseLocker {
    /// Address of the locker record.
    pub locker_address: AccountId,
    /// The locker being closed; `None` once closed.
    pub locker: Option<Locker>,
    /// The signer; must be the locker's owner.
    pub owner: AccountId,
    /// The derived authority handed in as proof.
    pub vault_authority: AccountId,
    /// The locker's vault; `None` once closed.
    pub vault: Option<TokenAccount>,
    /// Where the swept funds go.
    pub target_wallet: TokenAccount,
}

/// The cross-reference constraints of `close_locker`.
pub open spec fn close_cross_ok(a: CloseLocker) -> bool {
    &&& a.vault.unwrap().owner == a.vault_authority
    &&& a.target_wallet.mint == a.vault.unwrap().mint
}

/// The authorization demands of `close_locker`.
pub open spec fn close_auth_ok(a: CloseLocker) -> bool {
    &&& a.locker.unwrap().owner == a.owner
    &&& a.vault_authority == spec_derive_authority(a.locker_address, a.locker.unwrap().vault_bump)
}

/// Owner-authorized escape hatch: unconditionally sweeps the full vault
/// balance to the target holding and closes both vault and locker,
/// regardless of schedule.  A privileged bypass outside the normal
/// lifecycle guarantees, kept for administrative teardown; it is not
/// gated beyond ownership, so deployments should treat it as a
/// universally callable fund sweep.
pub fn close_locker(accs: &mut CloseLocker) -> (r: Result<u64, ErrorCode>)
    requires
        old(accs).locker is Some,
        old(accs).vault is Some,
    ensures
        r is Err ==> *final(accs) == *old(accs),
        ({
            let a = *old(accs);
            let v = a.vault.unwrap();
            &&& (r is Ok <==> close_cross_ok(a) && close_auth_ok(a) && a.target_wallet.amount
                + v.amount <= u64::MAX)
            &&& (r is Ok ==> r == Ok::<u64, ErrorCode>(v.amount))
            &&& (r is Ok ==> *final(accs) == (CloseLocker {
                locker: None,
                vault: None,
                target_wallet: (TokenAccount {
                    amount: (a.target_wallet.amount + v.amount) as u64,
                    ..a.target_wallet
                }),
                ..a
            }))
            &&& (!close_cross_ok(a) <==> r == Err::<u64, ErrorCode>(ErrorCode::InvalidAccounts))
            &&& (close_cross_ok(a) && !close_auth_ok(a) <==> r == Err::<u64, ErrorCode>(
                ErrorCode::Unauthorized,
            ))
            &&& (close_cross_ok(a) && close_auth_ok(a) && a.target_wallet.amount + v.amount
                > u64::MAX <==> r == Err::<u64, ErrorCode>(ErrorCode::IntegerOverflow))
        }),
{
    let locker = accs.locker.unwrap();
    let vault = accs.vault.unwrap();
    if vault.owner != accs.vault_authority || accs.target_wallet.mint != vault.mint {
        return Err(ErrorCode::InvalidAccounts);
    }
    if locker.owner != accs.owner {
        return Err(ErrorCode::Unauthorized);
    }
    let authority = derive_authority(accs.locker_address, locker.vault_bump);
    if accs.vault_authority != authority {
        return Err(ErrorCode::Unauthorized);
    }
    let swept = vault.amount;
    let mut vault_after = vault;
    match token_transfer(&mut vault_after, &mut accs.target_wallet, swept) {
        Ok(()) => {},
        Err(e) => {
            return Err(e);
        },
    }
    accs.locker = None;
    accs.vault = None;
    Ok(swept)
}

/// The accounts `create_locker` runs against.
#[derive(Clone, Debug, PartialEq, Eq)]
pub struct CreateLocker {
    /// Address of the fresh locker record.
    pub locker_address: AccountId,
    /// The signer paying for the new record's storage.
    pub creator: AccountId,
    /// The lock's owner; also pays the native fee.
    pub owner: AccountId,
    /// The owner's native balance.
    pub owner_lamports: u64,
    /// The signing authority of the funding wallet.
    pub funding_wallet_authority: AccountId,
    /// Where the deposit is taken from.
    pub funding_wallet: TokenAccount,
    /// The derived authority that will control the new vault.
    pub vault_authority: AccountId,
    /// Address of the vault account.
    pub vault_address: AccountId,
    /// The fresh vault the locked amount moves into.
    pub vault: TokenAccount,
    /// The native fee destination handed in by the caller.
    pub fee_wallet: AccountId,
    /// The native fee destination's balance.
    pub fee_wallet_lamports: u64,
    /// Address of the fee-collection token holding handed in.
    pub fee_token_wallet_address: AccountId,
    /// The fee-collection token holding itself.
    pub fee_token_wallet: TokenAccount,
    /// The mint-fee record of the deposited asset type.
    pub mint_info: MintInfo,
    /// The deployment configuration.
    pub config: Config,
    /// Address of the ban-list registry handed in.
    pub country_banlist_address: AccountId,
    /// The ban-list registry itself.
    pub country_banlist: CountryBanList,
}

/// The cross-reference constraints of `create_locker`: the fresh vault
/// holds the funding wallet's asset type, is empty, and is controlled by
/// the authority derived from the new locker's address; the handed-in
/// ban list is the one the configuration names.
pub open spec fn create_cross_ok(a: CreateLocker, args: CreateLockerArgs) -> bool {
    &&& a.vault.mint == a.funding_wallet.mint
    &&& a.vault.owner == a.vault_authority
    &&& a.vault_authority == spec_derive_authority(a.locker_address, args.vault_bump)
    &&& a.country_banlist_address == a.config.country_list
    &&& a.vault.amount == 0
}

/// The release schedule a creation asks for is acceptable: the unlock
/// date lies in the future but below the sanity ceiling, vesting is only
/// requested where the deployment allows it, and a vesting start lies
/// strictly before the unlock date.
pub open spec fn create_schedule_ok(config: Config, args: CreateLockerArgs, now: i64) -> bool {
    &&& args.unlock_date > now
    &&& args.unlock_date < MAX_UNLOCK_DATE
    &&& (config.has_linear_emission || args.start_emission is None)
    &&& (args.start_emission matches Some(s) ==> args.unlock_date > s)
}

/// The encoded bytes of the country argument.
pub open spec fn spec_country_bytes(args: CreateLockerArgs) -> Seq<u8> {
    vstd::utf8::encode_utf8(args.country_code@)
}

/// The country of a creation is acceptable: a two-byte code, registered
/// and not banned.
pub open spec fn create_country_ok(a: CreateLocker, args: CreateLockerArgs) -> bool {
    &&& spec_country_bytes(args).len() >= 2
    &&& a.country_banlist.spec_valid_key(spec_str_code_key(spec_country_bytes(args)))
}

/// Whether the creation pays the flat native fee.
pub open spec fn create_sol_fee_due(a: CreateLocker, args: CreateLockerArgs) -> bool {
    spec_should_pay_in_sol(a.config.mint_info_permissioned, args.fee_in_sol, a.mint_info.fee_paid)
}

/// Whether the creation pays the proportional asset fee.
pub open spec fn create_token_fee_due(a: CreateLocker, args: CreateLockerArgs) -> bool {
    spec_should_pay_in_tokens(
        a.config.mint_info_permissioned,
        args.fee_in_sol,
        a.mint_info.fee_paid,
    )
}

/// The asset fee a creation deducts: the proportional fee when it is
/// due, nothing otherwise.
pub open spec fn create_lock_fee(a: CreateLocker, args: CreateLockerArgs) -> u64 {
    if create_token_fee_due(a, args) {
        spec_token_fee(a.config, args.amount).unwrap()
    } else {
        0u64
    }
}

/// Everything `create_locker` demands before it moves any funds.
pub open spec fn spec_create_ok(a: CreateLocker, args: CreateLockerArgs, now: i64) -> bool {
    &&& create_cross_ok(a, args)
    &&& a.funding_wallet.owner == a.funding_wallet_authority
    &&& create_schedule_ok(a.config, args, now)
    &&& create_country_ok(a, args)
    &&& (create_sol_fee_due(a, args) ==> spec_sol_fee_payable(
        a.config,
        a.fee_wallet,
        a.owner_lamports,
        a.fee_wallet_lamports,
    ))
    &&& (create_token_fee_due(a, args) ==> spec_token_fee_payable(
        a.config,
        a.funding_wallet,
        a.fee_token_wallet_address,
        a.fee_token_wallet,
        args.amount,
    ))
    &&& create_lock_fee(a, args) < args.amount
    &&& args.amount <= a.funding_wallet.amount
}

/// Creates a new lock: validates schedule and country, applies the fee
/// policy, nets the asset fee off the amount, and moves the remainder
/// into a fresh vault controlled by an authority derived from the new
/// locker's own address.  The new record's deposited amount equals the
/// vault's balance exactly.
pub fn create_locker(accs: &mut CreateLocker, args: CreateLockerArgs, now: i64) -> (r: Result<
    Locker,
    ErrorCode,
>)
    requires
        old(accs).country_banlist.wf(),
    ensures
        r is Err ==> *final(accs) == *old(accs),
        r is Ok <==> spec_create_ok(*old(accs), args, now),
        ({
            let a = *old(accs);
            let sol_due = create_sol_fee_due(a, args);
            let token_due = create_token_fee_due(a, args);
            let lock_fee = create_lock_fee(a, args);
            let sol_fee = spec_sol_fee_lamports(a.config);
            let bytes = spec_country_bytes(args);
            &&& (r is Ok ==> {
                let l = r.unwrap();
                &&& l.owner == a.owner
                &&& l.country_code@[0] == bytes[0]
                &&& l.country_code@[1] == bytes[1]
                &&& l.current_unlock_date == args.unlock_date
                &&& l.start_emission == args.start_emission
                &&& l.deposited_amount == args.amount - lock_fee
                &&& l.vault == a.vault_address
                &&& l.vault_bump == args.vault_bump
            })
            &&& (r is Ok ==> *final(accs) == (CreateLocker {
                owner_lamports: if sol_due {
                    (a.owner_lamports - sol_fee.unwrap()) as u64
                } else {
                    a.owner_lamports
                },
                fee_wallet_lamports: if sol_due {
                    (a.fee_wallet_lamports + sol_fee.unwrap()) as u64
                } else {
                    a.fee_wallet_lamports
                },
                mint_info: (MintInfo {
                    bump: a.mint_info.bump,
                    fee_paid: if sol_due {
                        !a.config.mint_info_permissioned || a.mint_info.fee_paid
                    } else {
                        a.mint_info.fee_paid
                    },
                }),
                funding_wallet: (TokenAccount {
                    amount: (a.funding_wallet.amount - args.amount) as u64,
                    ..a.funding_wallet
                }),
                fee_token_wallet: (TokenAccount {
                    amount: (a.fee_token_wallet.amount + lock_fee) as u64,
                    ..a.fee_token_wallet
                }),
                vault: (TokenAccount { amount: (args.amount - lock_fee) as u64, ..a.vault }),
                ..a
            }))
            &&& (!create_cross_ok(a, args) <==> r == Err::<Locker, ErrorCode>(
                ErrorCode::InvalidAccounts,
            ))
            &&& (create_cross_ok(a, args) && a.funding_wallet.owner != a.funding_wallet_authority
                <==> r == Err::<Locker, ErrorCode>(ErrorCode::Unauthorized))
            &&& ({
                let pre = create_cross_ok(a, args) && a.funding_wallet.owner
                    == a.funding_wallet_authority;
                &&& (pre && args.unlock_date <= now ==> r == Err::<Locker, ErrorCode>(
                    ErrorCode::UnlockInThePast,
                ))
                &&& (pre && args.unlock_date > now && args.unlock_date >= MAX_UNLOCK_DATE ==> r
                    == Err::<Locker, ErrorCode>(ErrorCode::InvalidTimestamp))
                &&& (pre && args.unlock_date > now && args.unlock_date < MAX_UNLOCK_DATE
                    && !a.config.has_linear_emission && args.start_emission is Some ==> r == Err::<
                    Locker,
                    ErrorCode,
                >(ErrorCode::LinearEmissionDisabled))
                &&& (pre && args.unlock_date > now && args.unlock_date < MAX_UNLOCK_DATE && (
                a.config.has_linear_emission || args.start_emission is None) && (args.start_emission
                    matches Some(s) && args.unlock_date <= s) ==> r == Err::<Locker, ErrorCode>(
                    ErrorCode::InvalidPeriod,
                ))
                &&& (pre && create_schedule_ok(a.config, args, now) && !create_country_ok(a, args)
                    ==> r == Err::<Locker, ErrorCode>(ErrorCode::InvalidCountry))
            })
            &&& ({
                let pre = create_cross_ok(a, args) && a.funding_wallet.owner
                    == a.funding_wallet_authority && create_schedule_ok(a.config, args, now)
                    && create_country_ok(a, args);
                &&& (pre && sol_due && a.fee_wallet != a.config.fee_wallet ==> r == Err::<
                    Locker,
                    ErrorCode,
                >(ErrorCode::InvalidFeeWallet))
                &&& (pre && sol_due && a.fee_wallet == a.config.fee_wallet && sol_fee is None ==> r
                    == Err::<Locker, ErrorCode>(ErrorCode::IntegerOverflow))
                &&& (pre && sol_due && a.fee_wallet == a.config.fee_wallet && sol_fee is Some
                    && sol_fee.unwrap() > a.owner_lamports ==> r == Err::<Locker, ErrorCode>(
                    ErrorCode::InvalidAmountTransferred,
                ))
                &&& ({
                    let sol_ok = !sol_due || spec_sol_fee_payable(
                        a.config,
                        a.fee_wallet,
                        a.owner_lamports,
                        a.fee_wallet_lamports,
                    );
                    let ata_ok = a.fee_token_wallet_address == spec_associated_token_address(
                        a.config.fee_wallet,
                        a.funding_wallet.mint,
                    );
                    let fee_opt = spec_token_fee(a.config, args.amount);
                    &&& (pre && sol_ok && token_due && !ata_ok ==> r == Err::<Locker, ErrorCode>(
                        ErrorCode::InvalidFeeWallet,
                    ))
                    &&& (pre && sol_ok && token_due && ata_ok && fee_opt is None ==> r == Err::<
                        Locker,
                        ErrorCode,
                    >(ErrorCode::IntegerOverflow))
                    &&& (pre && sol_ok && token_due && ata_ok && fee_opt is Some
                        && fee_opt.unwrap() > a.funding_wallet.amount ==> r == Err::<
                        Locker,
                        ErrorCode,
                    >(ErrorCode::InvalidAmountTransferred))
                    &&& ({
                        let token_ok = !token_due || spec_token_fee_payable(
                            a.config,
                            a.funding_wallet,
                            a.fee_token_wallet_address,
                            a.fee_token_wallet,
                            args.amount,
                        );
                        &&& (pre && sol_ok && token_ok && lock_fee >= args.amount ==> r == Err::<
                            Locker,
                            ErrorCode,
                        >(ErrorCode::NothingToLock))
                        &&& (pre && sol_ok && token_ok && lock_fee < args.amount && args.amount
                            > a.funding_wallet.amount ==> r == Err::<Locker, ErrorCode>(
                            ErrorCode::InvalidAmountTransferred,
                        ))
                    })
                })
            })
        }),
{
    let vault_auth = derive_authority(accs.locker_address, args.vault_bump);
    if accs.vault.mint != accs.funding_wallet.mint || accs.vault.owner != accs.vault_authority
        || accs.vault_authority != vault_auth || accs.country_banlist_address
        != accs.config.country_list || accs.vault.amount != 0 {
        return Err(ErrorCode::InvalidAccounts);
    }
    if accs.funding_wallet.owner != accs.funding_wallet_authority {
        return Err(ErrorCode::Unauthorized);
    }
    if args.unlock_date <= now {
        return Err(ErrorCode::UnlockInThePast);
    }
    // prevents errors when the timestamp is entered as milliseconds
    if args.unlock_date >= MAX_UNLOCK_DATE {
        return Err(ErrorCode::InvalidTimestamp);
    }
    if !accs.config.has_linear_emission && args.start_emission.is_some() {
        return Err(ErrorCode::LinearEmissionDisabled);
    }
    match args.start_emission {
        Some(start_emission) => {
            if args.unlock_date <= start_emission {
                return Err(ErrorCode::InvalidPeriod);
            }
        },
        None => {},
    }
    let country = args.country_code.as_str();
    if country.as_bytes().len() < 2 {
        return Err(ErrorCode::InvalidCountry);
    }
    if !accs.country_banlist.is_country_valid(country) {
        return Err(ErrorCode::InvalidCountry);
    }
    let sol_due = should_pay_in_sol(&accs.config, &accs.mint_info, args.fee_in_sol);
    let token_due = should_pay_in_tokens(&accs.config, &accs.mint_info, args.fee_in_sol);
    if sol_due {
        if accs.fee_wallet != accs.config.fee_wallet {
            return Err(ErrorCode::InvalidFeeWallet);
        }
        let lamports: u64 = match accs.config.fee_in_sol.checked_mul(
            crate::state::NATIVE_UNITS_PER_WHOLE,
        ) {
            Some(l) => l,
            None => {
                return Err(ErrorCode::IntegerOverflow);
            },
        };
        if lamports > accs.owner_lamports {
            return Err(ErrorCode::InvalidAmountTransferred);
        }
        if lamports > u64::MAX - accs.fee_wallet_lamports {
            return Err(ErrorCode::IntegerOverflow);
        }
    }
    let mut lock_fee: u64 = 0;
    if token_due {
        let canonical = associated_token_address(accs.config.fee_wallet, accs.funding_wallet.mint);
        if canonical != accs.fee_token_wallet_address {
            return Err(ErrorCode::InvalidFeeWallet);
        }
        lock_fee = match mul_div(
            args.amount,
            accs.config.fee_in_token_numerator,
            accs.config.fee_in_token_denominator,
        ) {
            Some(f) => f,
            None => {
                return Err(ErrorCode::IntegerOverflow);
            },
        };
        if lock_fee > accs.funding_wallet.amount {
            return Err(ErrorCode::InvalidAmountTransferred);
        }
        if lock_fee > u64::MAX - accs.fee_token_wallet.amount {
            return Err(ErrorCode::IntegerOverflow);
        }
    }
    if lock_fee >= args.amount {
        return Err(ErrorCode::NothingToLock);
    }
    let amount_to_lock = args.amount - lock_fee;
    if args.amount > accs.funding_wallet.amount {
        return Err(ErrorCode::InvalidAmountTransferred);
    }
    // all checks passed: apply the whole operation
    if sol_due {
        match pay_fee_in_sol(
            &accs.config,
            &mut accs.mint_info,
            accs.fee_wallet,
            &mut accs.owner_lamports,
            &mut accs.fee_wallet_lamports,
        ) {
            Ok(()) => {},
            Err(e) => {
                return Err(e);
            },
        }
    }
    if token_due {
        match pay_fee_in_tokens(
            &accs.config,
            &mut accs.funding_wallet,
            accs.fee_token_wallet_address,
            &mut accs.fee_token_wallet,
            args.amount,
        ) {
            Ok(_) => {},
            Err(e) => {
                return Err(e);
            },
        }
    }
    match token_transfer(&mut accs.funding_wallet, &mut accs.vault, amount_to_lock) {
        Ok(()) => {},
        Err(e) => {
            return Err(e);
        },
    }
    let locker = Locker {
        owner: accs.owner,
        country_code: string_to_byte_array(country),
        current_unlock_date: args.unlock_date,
        start_emission: args.start_emission,
        deposited_amount: amount_to_lock,
        vault: accs.vault_address,
        vault_bump: args.vault_bump,
    };
    Ok(locker)
}

/// A linear schedule's release is always defined over a positive period
/// and never exceeds the deposited amount.
pub proof fn lemma_linear_release_bounds(deposited: u64, start: i64, unlock: i64, now: i64)
    requires
        start < unlock,
    ensures
        spec_linear_unlocked(deposited, start, unlock, now) is Some,
        spec_linear_unlocked(deposited, start, unlock, now).unwrap() <= deposited,
{
    let full = (unlock - start) as u64;
    let elapsed = (spec_clamp(now, start, unlock) - start) as u64;
    crate::math::lemma_mul_div_le_basis(deposited, elapsed, full);
}

/// At or before the vesting start a linear schedule has released exactly
/// nothing.
pub proof fn lemma_linear_release_at_start(deposited: u64, start: i64, unlock: i64, now: i64)
    requires
        start < unlock,
        now <= start,
    ensures
        spec_linear_unlocked(deposited, start, unlock, now) == Some(0u64),
{
    let full = (unlock - start) as u64;
    crate::math::lemma_mul_div_zero(deposited, full);
}

/// At or after the unlock date a linear schedule has released the full
/// deposited amount.
pub proof fn lemma_linear_release_full(deposited: u64, start: i64, unlock: i64, now: i64)
    requires
        start < unlock,
        now >= unlock,
    ensures
        spec_linear_unlocked(deposited, start, unlock, now) == Some(deposited),
{
    let full = (unlock - start) as u64;
    crate::math::lemma_mul_div_full_period(deposited, full);
}

/// Releases scale monotonically with elapsed time: a later reading never
/// shows less unlocked than an earlier one.
pub proof fn lemma_linear_release_monotonic(
    deposited: u64,
    start: i64,
    unlock: i64,
    now1: i64,
    now2: i64,
)
    requires
        start < unlock,
        now1 <= now2,
    ensures
        spec_linear_unlocked(deposited, start, unlock, now1).unwrap() <= spec_linear_unlocked(
            deposited,
            start,
            unlock,
            now2,
        ).unwrap(),
{
    let full = (unlock - start) as u64;
    let e1 = (spec_clamp(now1, start, unlock) - start) as u64;
    let e2 = (spec_clamp(now2, start, unlock) - start) as u64;
    lemma_linear_release_bounds(deposited, start, unlock, now1);
    lemma_linear_release_bounds(deposited, start, unlock, now2);
    crate::math::lemma_mul_div_le_basis(deposited, e2, full);
    crate::math::lemma_mul_div_monotonic_in_b(deposited, e1, e2, full);
}

/// A split conserves balance exactly: the new locker's deposited amount
/// plus what remains in the old locker equals what the old locker held
/// before.
pub proof fn lemma_split_conserves_deposits(a: SplitLocker, args: SplitLockerArgs)
    requires
        a.old_locker is Some,
        a.old_vault is Some,
        spec_split_ok(a, args),
    ensures
        spec_split_new_locker(a, args).deposited_amount + (a.old_locker.unwrap().deposited_amount
            - args.amount) == a.old_locker.unwrap().deposited_amount,
{
}

} // verus!
