use locker::accounts::{associated_token_address, derive_authority, TokenAccount};
use locker::engine::{
    increment_lock, init_config, init_mint_info, relock, transfer_ownership, update_config,
    IncrementLock, InitConfig, InitMintInfo, Relock, TransferOwnership, UpdateConfig,
};
use locker::state::{Config, CreateConfigArgs, Locker, MintInfo, UpdateConfigArgs};
use locker::ErrorCode;

fn make_config() -> Config {
    init_config(
        &InitConfig { admin: 1, fee_wallet: 500, country_list: 600 },
        CreateConfigArgs {
            fee_in_sol: 1,
            fee_in_token_numerator: 35,
            fee_in_token_denominator: 10000,
            mint_info_permissioned: false,
            has_linear_emission: true,
            bump: 3,
        },
    )
}

#[test]
fn init_config_records_all_fields() {
    let config = make_config();
    assert_eq!(config.admin, 1);
    assert_eq!(config.fee_in_sol, 1);
    assert_eq!(config.fee_in_token_numerator, 35);
    assert_eq!(config.fee_in_token_denominator, 10000);
    assert!(!config.mint_info_permissioned);
    assert!(config.has_linear_emission);
    assert_eq!(config.fee_wallet, 500);
    assert_eq!(config.country_list, 600);
    assert_eq!(config.bump, 3);
}

#[test]
fn update_config_keeps_absent_fields() {
    let mut config = make_config();
    let accs = UpdateConfig { admin: 1, fee_wallet: 501, country_list: 601 };
    let args = UpdateConfigArgs {
        fee_in_sol: Some(2),
        fee_in_token_numerator: None,
        fee_in_token_denominator: None,
        mint_info_permissioned: Some(true),
        has_linear_emission: None,
    };
    assert_eq!(update_config(&accs, &mut config, args), Ok(()));
    assert_eq!(config.fee_in_sol, 2);
    assert_eq!(config.fee_in_token_numerator, 35);
    assert_eq!(config.fee_in_token_denominator, 10000);
    assert!(config.mint_info_permissioned);
    assert!(config.has_linear_emission);
    assert_eq!(config.fee_wallet, 501);
    assert_eq!(config.country_list, 601);
    assert_eq!(config.admin, 1);
}

#[test]
fn update_config_rejects_non_admin() {
    let mut config = make_config();
    let accs = UpdateConfig { admin: 2, fee_wallet: 501, country_list: 601 };
    let args = UpdateConfigArgs {
        fee_in_sol: None,
        fee_in_token_numerator: None,
        fee_in_token_denominator: None,
        mint_info_permissioned: None,
        has_linear_emission: None,
    };
    assert_eq!(update_config(&accs, &mut config, args), Err(ErrorCode::Unauthorized));
    assert_eq!(config.fee_wallet, 500);
}

#[test]
fn init_mint_info_starts_unpaid() {
    let config = make_config();
    let accs = InitMintInfo { payer: 7, mint: 42, config };
    assert_eq!(init_mint_info(&accs, 4), Ok(MintInfo { bump: 4, fee_paid: false }));
}

#[test]
fn init_mint_info_permissioned_is_admin_only() {
    let mut config = make_config();
    config.mint_info_permissioned = true;
    let stranger = InitMintInfo { payer: 7, mint: 42, config };
    assert_eq!(init_mint_info(&stranger, 4), Err(ErrorCode::InitMintInfoNotAuthorized));
    let admin = InitMintInfo { payer: 1, mint: 42, config };
    assert_eq!(init_mint_info(&admin, 4), Ok(MintInfo { bump: 4, fee_paid: false }));
}

#[test]
fn mint_info_default_is_unpaid() {
    let mi: MintInfo = Default::default();
    assert_eq!(mi, MintInfo { bump: 0, fee_paid: false });
}

fn sample_locker(deposited: u64) -> Locker {
    Locker {
        owner: 2,
        country_code: [85, 83],
        current_unlock_date: 500,
        start_emission: None,
        deposited_amount: deposited,
        vault: 1100,
        vault_bump: 7,
    }
}

#[test]
fn relock_extends_only_forward() {
    let mut accs = Relock { locker: sample_locker(100), owner: 2 };
    assert_eq!(relock(&mut accs, 500), Err(ErrorCode::CannotUnlockToEarlierDate));
    assert_eq!(accs.locker.current_unlock_date, 500);
    assert_eq!(relock(&mut accs, 499), Err(ErrorCode::CannotUnlockToEarlierDate));
    assert_eq!(relock(&mut accs, 501), Ok(()));
    assert_eq!(accs.locker.current_unlock_date, 501);
}

#[test]
fn relock_rejects_foreign_signer() {
    let mut accs = Relock { locker: sample_locker(100), owner: 9 };
    assert_eq!(relock(&mut accs, 1000), Err(ErrorCode::Unauthorized));
}

#[test]
fn transfer_ownership_reassigns_owner() {
    let mut accs = TransferOwnership { locker: sample_locker(100), owner: 2, new_owner: 8 };
    assert_eq!(transfer_ownership(&mut accs), Ok(()));
    assert_eq!(accs.locker.owner, 8);
    assert_eq!(accs.locker.deposited_amount, 100);
}

#[test]
fn transfer_ownership_rejects_foreign_signer() {
    let mut accs = TransferOwnership { locker: sample_locker(100), owner: 3, new_owner: 8 };
    assert_eq!(transfer_ownership(&mut accs), Err(ErrorCode::Unauthorized));
    assert_eq!(accs.locker.owner, 2);
}

fn setup_increment(deposited: u64, fee_paid: bool) -> IncrementLock {
    let vault_authority = derive_authority(1000, 7);
    let config = make_config();
    IncrementLock {
        locker: sample_locker(deposited),
        vault_address: 1100,
        vault: TokenAccount { mint: 42, owner: vault_authority, amount: deposited },
        mint_info: MintInfo { bump: 0, fee_paid },
        funding_wallet_authority: 3,
        funding_wallet: TokenAccount { mint: 42, owner: 3, amount: 50000 },
        fee_wallet_address: associated_token_address(config.fee_wallet, 42),
        fee_wallet: TokenAccount { mint: 42, owner: config.fee_wallet, amount: 0 },
        config,
    }
}

#[test]
fn increment_lock_nets_asset_fee() {
    let mut accs = setup_increment(1000, false);
    assert_eq!(increment_lock(&mut accs, 10000), Ok(()));
    assert_eq!(accs.locker.deposited_amount, 10965);
    assert_eq!(accs.vault.amount, 10965);
    assert_eq!(accs.fee_wallet.amount, 35);
    assert_eq!(accs.funding_wallet.amount, 40000);
}

#[test]
fn increment_lock_skips_fee_once_paid() {
    let mut accs = setup_increment(1000, true);
    assert_eq!(increment_lock(&mut accs, 10000), Ok(()));
    assert_eq!(accs.locker.deposited_amount, 11000);
    assert_eq!(accs.fee_wallet.amount, 0);
}

#[test]
fn increment_lock_rejects_carry_overflow() {
    let mut accs = setup_increment(u64::MAX - 10, true);
    accs.vault.amount = 0;
    assert_eq!(increment_lock(&mut accs, 10000), Err(ErrorCode::IntegerOverflow));
    assert_eq!(accs.locker.deposited_amount, u64::MAX - 10);
}

#[test]
fn increment_lock_rejects_foreign_vault() {
    let mut accs = setup_increment(1000, true);
    accs.vault_address = 1101;
    assert_eq!(increment_lock(&mut accs, 10000), Err(ErrorCode::InvalidAccounts));
}
