use locker::accounts::{derive_authority, TokenAccount};
use locker::engine::{withdraw_funds, WithdrawFunds};
use locker::state::Locker;
use locker::ErrorCode;

const YEAR: i64 = 31_536_000;

fn setup_withdraw(deposited: u64, unlock: i64, start_emission: Option<i64>) -> WithdrawFunds {
    let vault_authority = derive_authority(1000, 7);
    let locker = Locker {
        owner: 2,
        country_code: [85, 83],
        current_unlock_date: unlock,
        start_emission,
        deposited_amount: deposited,
        vault: 1100,
        vault_bump: 7,
    };
    WithdrawFunds {
        locker_address: 1000,
        locker: Some(locker),
        owner: 2,
        vault_authority,
        vault: Some(TokenAccount { mint: 42, owner: vault_authority, amount: deposited }),
        target_wallet: TokenAccount { mint: 42, owner: 2, amount: 0 },
    }
}

#[test]
fn cliff_withdraw_too_early() {
    let mut accs = setup_withdraw(1000, 100, None);
    // exactly at the unlock date is still too early: strictly after it opens
    assert_eq!(withdraw_funds(&mut accs, 100, 1000), Err(ErrorCode::TooEarlyToWithdraw));
    assert!(accs.locker.is_some());
    assert_eq!(accs.target_wallet.amount, 0);
}

#[test]
fn cliff_withdraw_opens_one_second_after() {
    let mut accs = setup_withdraw(1000, 100, None);
    let r = withdraw_funds(&mut accs, 101, 400);
    assert_eq!(r, Ok(400));
    assert_eq!(accs.target_wallet.amount, 400);
    let locker = accs.locker.unwrap();
    assert_eq!(locker.deposited_amount, 600);
    assert_eq!(accs.vault.unwrap().amount, 600);
}

#[test]
fn cliff_withdraw_caps_at_vault_balance() {
    let mut accs = setup_withdraw(1000, 100, None);
    // asking for more than the vault holds releases exactly the balance
    let r = withdraw_funds(&mut accs, 101, 5000);
    assert_eq!(r, Ok(1000));
    assert_eq!(accs.target_wallet.amount, 1000);
    // the drained lock is garbage-collected
    assert_eq!(accs.locker, None);
    assert_eq!(accs.vault, None);
}

#[test]
fn linear_withdraw_at_start_releases_nothing() {
    let mut accs = setup_withdraw(9965, YEAR, Some(0));
    assert_eq!(withdraw_funds(&mut accs, 0, 9965), Err(ErrorCode::InvalidAmount));
    assert_eq!(accs.target_wallet.amount, 0);
}

#[test]
fn linear_withdraw_halfway_releases_half() {
    let mut accs = setup_withdraw(9965, YEAR, Some(0));
    let r = withdraw_funds(&mut accs, YEAR / 2, 9965);
    assert_eq!(r, Ok(4982));
    let locker = accs.locker.unwrap();
    assert_eq!(locker.deposited_amount, 4983);
    assert_eq!(accs.vault.unwrap().amount, 4983);
    assert_eq!(accs.target_wallet.amount, 4982);
}

#[test]
fn linear_withdraw_full_at_unlock() {
    let mut accs = setup_withdraw(9965, YEAR, Some(0));
    let r = withdraw_funds(&mut accs, YEAR, 9965);
    assert_eq!(r, Ok(9965));
    assert_eq!(accs.locker, None);
    assert_eq!(accs.vault, None);
    assert_eq!(accs.target_wallet.amount, 9965);
}

#[test]
fn linear_withdraw_scales_with_time() {
    let mut early = setup_withdraw(10000, YEAR, Some(0));
    let mut late = setup_withdraw(10000, YEAR, Some(0));
    let a = withdraw_funds(&mut early, YEAR / 4, 10000).unwrap();
    let b = withdraw_funds(&mut late, YEAR / 2, 10000).unwrap();
    assert_eq!(a, 2500);
    assert_eq!(b, 5000);
    assert!(a <= b);
}

#[test]
fn linear_withdraw_partial_request() {
    let mut accs = setup_withdraw(10000, YEAR, Some(0));
    // halfway unlocks 5000; the request is smaller and wins
    let r = withdraw_funds(&mut accs, YEAR / 2, 700);
    assert_eq!(r, Ok(700));
    assert_eq!(accs.locker.unwrap().deposited_amount, 9300);
}

#[test]
fn linear_withdraw_rejects_empty_period() {
    let mut accs = setup_withdraw(1000, 100, Some(100));
    assert_eq!(withdraw_funds(&mut accs, 150, 10), Err(ErrorCode::InvalidPeriod));
}

#[test]
fn withdraw_rejects_foreign_signer() {
    let mut accs = setup_withdraw(1000, 100, None);
    accs.owner = 9;
    assert_eq!(withdraw_funds(&mut accs, 101, 10), Err(ErrorCode::Unauthorized));
}

#[test]
fn withdraw_rejects_underived_authority() {
    let mut accs = setup_withdraw(1000, 100, None);
    let fake = accs.vault_authority ^ 1;
    accs.vault_authority = fake;
    accs.vault = Some(TokenAccount { mint: 42, owner: fake, amount: 1000 });
    assert_eq!(withdraw_funds(&mut accs, 101, 10), Err(ErrorCode::Unauthorized));
}

#[test]
fn withdraw_rejects_wrong_target_mint() {
    let mut accs = setup_withdraw(1000, 100, None);
    accs.target_wallet.mint = 43;
    assert_eq!(withdraw_funds(&mut accs, 101, 10), Err(ErrorCode::InvalidAccounts));
}
