use locker::accounts::{associated_token_address, TokenAccount};
use locker::fees::{pay_fee_in_sol, pay_fee_in_tokens, should_pay_in_sol, should_pay_in_tokens};
use locker::state::{Config, MintInfo};
use locker::ErrorCode;

fn config(permissioned: bool) -> Config {
    Config {
        admin: 1,
        fee_in_sol: 1,
        fee_in_token_numerator: 35,
        fee_in_token_denominator: 10000,
        mint_info_permissioned: permissioned,
        has_linear_emission: true,
        fee_wallet: 500,
        country_list: 600,
        bump: 0,
    }
}

fn mint_info(fee_paid: bool) -> MintInfo {
    MintInfo { bump: 0, fee_paid }
}

#[test]
fn fee_decision_truth_table() {
    // permissioned: both always fire
    for chose_native in [false, true] {
        for paid in [false, true] {
            assert!(should_pay_in_sol(&config(true), &mint_info(paid), chose_native));
            assert!(should_pay_in_tokens(&config(true), &mint_info(paid), chose_native));
        }
    }
    // non-permissioned: the chosen kind fires only while unpaid
    assert!(should_pay_in_sol(&config(false), &mint_info(false), true));
    assert!(!should_pay_in_sol(&config(false), &mint_info(true), true));
    assert!(!should_pay_in_sol(&config(false), &mint_info(false), false));
    assert!(should_pay_in_tokens(&config(false), &mint_info(false), false));
    assert!(!should_pay_in_tokens(&config(false), &mint_info(true), false));
    assert!(!should_pay_in_tokens(&config(false), &mint_info(false), true));
}

#[test]
fn fee_decisions_mutually_exclusive_when_not_permissioned() {
    for chose_native in [false, true] {
        for paid in [false, true] {
            let sol = should_pay_in_sol(&config(false), &mint_info(paid), chose_native);
            let tok = should_pay_in_tokens(&config(false), &mint_info(paid), chose_native);
            assert!(!(sol && tok));
        }
    }
}

#[test]
fn pay_fee_in_tokens_moves_exact_fee() {
    let cfg = config(false);
    let mut funding = TokenAccount { mint: 42, owner: 3, amount: 10000 };
    let ata = associated_token_address(cfg.fee_wallet, funding.mint);
    let mut fee_wallet = TokenAccount { mint: 42, owner: cfg.fee_wallet, amount: 7 };
    let r = pay_fee_in_tokens(&cfg, &mut funding, ata, &mut fee_wallet, 10000);
    assert_eq!(r, Ok(35));
    assert_eq!(funding.amount, 9965);
    assert_eq!(fee_wallet.amount, 42);
}

#[test]
fn pay_fee_in_tokens_rejects_wrong_wallet() {
    let cfg = config(false);
    let mut funding = TokenAccount { mint: 42, owner: 3, amount: 10000 };
    let ata = associated_token_address(cfg.fee_wallet, funding.mint);
    let mut fee_wallet = TokenAccount { mint: 42, owner: cfg.fee_wallet, amount: 0 };
    let r = pay_fee_in_tokens(&cfg, &mut funding, ata ^ 1, &mut fee_wallet, 10000);
    assert_eq!(r, Err(ErrorCode::InvalidFeeWallet));
    assert_eq!(funding.amount, 10000);
    assert_eq!(fee_wallet.amount, 0);
}

#[test]
fn pay_fee_in_tokens_rejects_insufficient_funding() {
    let cfg = config(false);
    let mut funding = TokenAccount { mint: 42, owner: 3, amount: 10 };
    let ata = associated_token_address(cfg.fee_wallet, funding.mint);
    let mut fee_wallet = TokenAccount { mint: 42, owner: cfg.fee_wallet, amount: 0 };
    // the fee on this amount exceeds what the funding wallet holds
    let r = pay_fee_in_tokens(&cfg, &mut funding, ata, &mut fee_wallet, u64::MAX / 2);
    assert_eq!(r, Err(ErrorCode::InvalidAmountTransferred));
    assert_eq!(funding.amount, 10);
}

#[test]
fn pay_fee_in_sol_marks_record_once() {
    let cfg = config(false);
    let mut mi = mint_info(false);
    let mut payer: u64 = 5_000_000_000;
    let mut dest: u64 = 0;
    let r = pay_fee_in_sol(&cfg, &mut mi, cfg.fee_wallet, &mut payer, &mut dest);
    assert_eq!(r, Ok(()));
    assert_eq!(payer, 4_000_000_000);
    assert_eq!(dest, 1_000_000_000);
    assert!(mi.fee_paid);
}

#[test]
fn pay_fee_in_sol_permissioned_never_marks() {
    let cfg = config(true);
    let mut mi = mint_info(false);
    let mut payer: u64 = 5_000_000_000;
    let mut dest: u64 = 0;
    let r = pay_fee_in_sol(&cfg, &mut mi, cfg.fee_wallet, &mut payer, &mut dest);
    assert_eq!(r, Ok(()));
    assert!(!mi.fee_paid);
}

#[test]
fn pay_fee_in_sol_rejects_wrong_wallet() {
    let cfg = config(false);
    let mut mi = mint_info(false);
    let mut payer: u64 = 5_000_000_000;
    let mut dest: u64 = 0;
    let r = pay_fee_in_sol(&cfg, &mut mi, cfg.fee_wallet ^ 1, &mut payer, &mut dest);
    assert_eq!(r, Err(ErrorCode::InvalidFeeWallet));
    assert_eq!(payer, 5_000_000_000);
    assert!(!mi.fee_paid);
}

#[test]
fn pay_fee_in_sol_rejects_poor_payer() {
    let cfg = config(false);
    let mut mi = mint_info(false);
    let mut payer: u64 = 999_999_999;
    let mut dest: u64 = 0;
    let r = pay_fee_in_sol(&cfg, &mut mi, cfg.fee_wallet, &mut payer, &mut dest);
    assert_eq!(r, Err(ErrorCode::InvalidAmountTransferred));
    assert_eq!(payer, 999_999_999);
    assert_eq!(dest, 0);
    assert!(!mi.fee_paid);
}
