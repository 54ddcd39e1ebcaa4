use locker::accounts::{derive_authority, TokenAccount};
use locker::engine::{close_locker, split_locker, CloseLocker, SplitLocker};
use locker::state::{Locker, SplitLockerArgs};
use locker::ErrorCode;

fn setup_split(deposited: u64) -> SplitLocker {
    let old_vault_authority = derive_authority(1000, 7);
    let new_vault_authority = derive_authority(2000, 9);
    let old_locker = Locker {
        owner: 2,
        country_code: [85, 83],
        current_unlock_date: 500,
        start_emission: Some(100),
        deposited_amount: deposited,
        vault: 1100,
        vault_bump: 7,
    };
    SplitLocker {
        old_locker_address: 1000,
        old_locker: Some(old_locker),
        old_owner: 2,
        old_vault_authority,
        old_vault: Some(TokenAccount { mint: 42, owner: old_vault_authority, amount: deposited }),
        new_locker_address: 2000,
        new_owner: 5,
        new_vault_authority,
        new_vault_address: 2100,
        new_vault: TokenAccount { mint: 42, owner: new_vault_authority, amount: 0 },
    }
}

fn split_args(amount: u64) -> SplitLockerArgs {
    SplitLockerArgs { locker_bump: 0, vault_bump: 9, amount }
}

#[test]
fn split_conserves_balance_and_copies_schedule() {
    let mut accs = setup_split(1000);
    let new_locker = split_locker(&mut accs, split_args(400)).unwrap();
    assert_eq!(new_locker.deposited_amount, 400);
    assert_eq!(new_locker.owner, 5);
    assert_eq!(new_locker.country_code, [85, 83]);
    assert_eq!(new_locker.current_unlock_date, 500);
    assert_eq!(new_locker.start_emission, Some(100));
    assert_eq!(new_locker.vault, 2100);
    assert_eq!(new_locker.vault_bump, 9);
    let old = accs.old_locker.unwrap();
    assert_eq!(old.deposited_amount, 600);
    assert_eq!(old.deposited_amount + new_locker.deposited_amount, 1000);
    assert_eq!(accs.old_vault.unwrap().amount, 600);
    assert_eq!(accs.new_vault.amount, 400);
}

#[test]
fn split_rejects_zero_amount() {
    let mut accs = setup_split(1000);
    assert_eq!(split_locker(&mut accs, split_args(0)), Err(ErrorCode::InvalidAmount));
    assert_eq!(accs.old_locker.unwrap().deposited_amount, 1000);
}

#[test]
fn split_rejects_excessive_amount() {
    let mut accs = setup_split(1000);
    assert_eq!(split_locker(&mut accs, split_args(1001)), Err(ErrorCode::InvalidAmount));
}

#[test]
fn split_of_everything_closes_old_locker() {
    let mut accs = setup_split(1000);
    let new_locker = split_locker(&mut accs, split_args(1000)).unwrap();
    assert_eq!(new_locker.deposited_amount, 1000);
    assert_eq!(accs.old_locker, None);
    assert_eq!(accs.old_vault, None);
    assert_eq!(accs.new_vault.amount, 1000);
}

#[test]
fn split_rejects_foreign_signer() {
    let mut accs = setup_split(1000);
    accs.old_owner = 9;
    assert_eq!(split_locker(&mut accs, split_args(1)), Err(ErrorCode::Unauthorized));
}

#[test]
fn split_rejects_used_new_vault() {
    let mut accs = setup_split(1000);
    accs.new_vault.amount = 1;
    assert_eq!(split_locker(&mut accs, split_args(1)), Err(ErrorCode::InvalidAccounts));
}

#[test]
fn close_locker_sweeps_everything() {
    let vault_authority = derive_authority(1000, 7);
    let locker = Locker {
        owner: 2,
        country_code: [85, 83],
        current_unlock_date: i64::MAX - 1,
        start_emission: None,
        deposited_amount: 750,
        vault: 1100,
        vault_bump: 7,
    };
    let mut accs = CloseLocker {
        locker_address: 1000,
        locker: Some(locker),
        owner: 2,
        vault_authority,
        vault: Some(TokenAccount { mint: 42, owner: vault_authority, amount: 750 }),
        target_wallet: TokenAccount { mint: 42, owner: 2, amount: 10 },
    };
    // the escape hatch ignores the schedule entirely
    let r = close_locker(&mut accs);
    assert_eq!(r, Ok(750));
    assert_eq!(accs.locker, None);
    assert_eq!(accs.vault, None);
    assert_eq!(accs.target_wallet.amount, 760);
}

#[test]
fn close_locker_rejects_foreign_signer() {
    let vault_authority = derive_authority(1000, 7);
    let locker = Locker {
        owner: 2,
        country_code: [85, 83],
        current_unlock_date: 100,
        start_emission: None,
        deposited_amount: 750,
        vault: 1100,
        vault_bump: 7,
    };
    let mut accs = CloseLocker {
        locker_address: 1000,
        locker: Some(locker),
        owner: 3,
        vault_authority,
        vault: Some(TokenAccount { mint: 42, owner: vault_authority, amount: 750 }),
        target_wallet: TokenAccount { mint: 42, owner: 2, amount: 0 },
    };
    assert_eq!(close_locker(&mut accs), Err(ErrorCode::Unauthorized));
    assert!(accs.locker.is_some());
}
