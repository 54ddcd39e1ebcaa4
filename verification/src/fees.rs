//! Fee policy: whether a native-currency fee, a proportional asset fee,
//! or neither applies to a given operation, and the payment steps
//! themselves.
//!
//! On a non-permissioned deployment the two decisions are mutually
//! exclusive on a given call; under the permissioned policy both fire
//! independently at creation time.

use vstd::prelude::*;

verus! {

use crate::accounts::{
    spec_associated_token_address, associated_token_address, token_transfer, native_transfer,
    AccountId, TokenAccount,
};
use crate::errors::ErrorCode;
use crate::math::{mul_div, spec_mul_div};
use crate::state::{Config, MintInfo, NATIVE_UNITS_PER_WHOLE};

/// When the flat native-currency fee is due: always under the
/// permissioned policy, otherwise only when the caller chose native
/// payment and the one-time fee has not been paid yet.
pub open spec fn spec_should_pay_in_sol(
    permissioned: bool,
    fee_in_sol: bool,
    fee_paid: bool,
) -> bool {
    permissioned || (fee_in_sol && !fee_paid)
}

/// When the proportional asset fee is due: always under the permissioned
/// policy, otherwise only when the caller did not choose native payment
/// and the one-time fee has not been paid yet.
pub open spec fn spec_should_pay_in_tokens(
    permissioned: bool,
    fee_in_sol: bool,
    fee_paid: bool,
) -> bool {
    permissioned || (!fee_in_sol && !fee_paid)
}

/// Decides whether the flat native-currency fee is due on this call.
pub fn should_pay_in_sol(config: &Config, mint_info: &MintInfo, fee_in_sol: bool) -> (r: bool)
    ensures
        r == spec_should_pay_in_sol(config.mint_info_permissioned, fee_in_sol, mint_info.fee_paid),
{
    match (config.mint_info_permissioned, fee_in_sol, mint_info.fee_paid) {
        (true, _, _) => true,
        (_, true, false) => true,
        (_, _, _) => false,
    }
}

/// Decides whether the proportional asset fee is due on this call.
pub fn should_pay_in_tokens(config: &Config, mint_info: &MintInfo, fee_in_sol: bool) -> (r: bool)
    ensures
        r == spec_should_pay_in_tokens(
            config.mint_info_permissioned,
            fee_in_sol,
            mint_info.fee_paid,
        ),
{
    match (config.mint_info_permissioned, fee_in_sol, mint_info.fee_paid) {
        (true, _, _) => true,
        (_, false, false) => true,
        (_, _, _) => false,
    }
}

/// On a non-permissioned deployment at most one of the two fee decisions
/// fires on a given call; they are mutually exclusive by construction.
pub proof fn lemma_fee_decisions_exclusive(fee_in_sol: bool, fee_paid: bool)
    ensures
        !(spec_should_pay_in_sol(false, fee_in_sol, fee_paid) && spec_should_pay_in_tokens(
            false,
            fee_in_sol,
            fee_paid,
        )),
{
}

/// The flat fee in base units of the native currency, or `None` when the
/// scaling overflows the native amount width.
pub open spec fn spec_sol_fee_lamports(config: Config) -> Option<u64> {
    if config.fee_in_sol * NATIVE_UNITS_PER_WHOLE <= u64::MAX {
        Some((config.fee_in_sol * NATIVE_UNITS_PER_WHOLE) as u64)
    } else {
        None
    }
}

/// The proportional asset fee on `amount` under `config`'s fee schedule,
/// or `None` when the computation overflows.
pub open spec fn spec_token_fee(config: Config, amount: u64) -> Option<u64> {
    spec_mul_div(amount, config.fee_in_token_numerator, config.fee_in_token_denominator)
}

/// Whether a native fee payment under `config` can fully succeed against
/// the given fee destination and balances.
pub open spec fn spec_sol_fee_payable(
    config: Config,
    fee_wallet: AccountId,
    payer_lamports: u64,
    fee_wallet_lamports: u64,
) -> bool {
    &&& fee_wallet == config.fee_wallet
    &&& spec_sol_fee_lamports(config) is Some
    &&& spec_sol_fee_lamports(config).unwrap() <= payer_lamports
    &&& fee_wallet_lamports + spec_sol_fee_lamports(config).unwrap() <= u64::MAX
}

/// Pays the flat native-currency fee from the caller to the deployment's
/// fee destination, and on a non-permissioned deployment marks the
/// mint-fee record as paid.  Rejects a fee destination that does not match
/// the registry exactly.
pub fn pay_fee_in_sol(
    config: &Config,
    mint_info: &mut MintInfo,
    fee_wallet: AccountId,
    payer_lamports: &mut u64,
    fee_wallet_lamports: &mut u64,
) -> (r: Result<(), ErrorCode>)
    ensures
        r is Ok <==> spec_sol_fee_payable(
            *config,
            fee_wallet,
            *old(payer_lamports),
            *old(fee_wallet_lamports),
        ),
        r is Ok ==> {
            &&& *final(payer_lamports) == *old(payer_lamports) - spec_sol_fee_lamports(
                *config,
            ).unwrap()
            &&& *final(fee_wallet_lamports) == *old(fee_wallet_lamports) + spec_sol_fee_lamports(
                *config,
            ).unwrap()
            &&& final(mint_info).bump == old(mint_info).bump
            &&& final(mint_info).fee_paid == (!config.mint_info_permissioned || old(
                mint_info,
            ).fee_paid)
        },
        r is Err ==> {
            &&& *final(mint_info) == *old(mint_info)
            &&& *final(payer_lamports) == *old(payer_lamports)
            &&& *final(fee_wallet_lamports) == *old(fee_wallet_lamports)
        },
        r == Err::<(), ErrorCode>(ErrorCode::InvalidFeeWallet) <==> fee_wallet != config.fee_wallet,
        fee_wallet == config.fee_wallet && spec_sol_fee_lamports(*config) is None ==> r == Err::<
            (),
            ErrorCode,
        >(ErrorCode::IntegerOverflow),
        fee_wallet == config.fee_wallet && spec_sol_fee_lamports(*config) is Some
            && spec_sol_fee_lamports(*config).unwrap() > *old(payer_lamports) ==> r == Err::<
            (),
            ErrorCode,
        >(ErrorCode::InvalidAmountTransferred),
{
    if fee_wallet != config.fee_wallet {
        return Err(ErrorCode::InvalidFeeWallet);
    }
    let lamports: u64 = match config.fee_in_sol.checked_mul(NATIVE_UNITS_PER_WHOLE) {
        Some(l) => l,
        None => {
            return Err(ErrorCode::IntegerOverflow);
        },
    };
    match native_transfer(payer_lamports, fee_wallet_lamports, lamports) {
        Ok(()) => {},
        Err(e) => {
            return Err(e);
        },
    }
    // a non-permissioned deployment allows one-time fees
    if !config.mint_info_permissioned {
        mint_info.fee_paid = true;
    }
    Ok(())
}

/// Whether an asset fee payment on `amount` can fully succeed against the
/// given canonical fee holding and wallet states.
pub open spec fn spec_token_fee_payable(
    config: Config,
    funding_wallet: TokenAccount,
    fee_wallet_address: AccountId,
    fee_wallet: TokenAccount,
    amount: u64,
) -> bool {
    &&& fee_wallet_address == spec_associated_token_address(config.fee_wallet, funding_wallet.mint)
    &&& spec_token_fee(config, amount) is Some
    &&& spec_token_fee(config, amount).unwrap() <= funding_wallet.amount
    &&& fee_wallet.amount + spec_token_fee(config, amount).unwrap() <= u64::MAX
}

/// Pays the proportional asset fee on `amount` from the depositor's
/// funding holding to the canonical fee-collection holding for that
/// asset, and returns the computed fee so the caller can net it off the
/// amount to lock.  Rounding floors, in favor of not over-deducting.
pub fn pay_fee_in_tokens(
    config: &Config,
    funding_wallet: &mut TokenAccount,
    fee_wallet_address: AccountId,
    fee_wallet: &mut TokenAccount,
    amount: u64,
) -> (r: Result<u64, ErrorCode>)
    ensures
        r is Ok <==> spec_token_fee_payable(
            *config,
            *old(funding_wallet),
            fee_wallet_address,
            *old(fee_wallet),
            amount,
        ),
        r is Ok ==> {
            &&& r.unwrap() == spec_token_fee(*config, amount).unwrap()
            &&& *final(funding_wallet) == (TokenAccount {
                amount: (old(funding_wallet).amount - r.unwrap()) as u64,
                ..*old(funding_wallet)
            })
            &&& *final(fee_wallet) == (TokenAccount {
                amount: (old(fee_wallet).amount + r.unwrap()) as u64,
                ..*old(fee_wallet)
            })
        },
        r is Err ==> {
            &&& *final(funding_wallet) == *old(funding_wallet)
            &&& *final(fee_wallet) == *old(fee_wallet)
        },
        r == Err::<u64, ErrorCode>(ErrorCode::InvalidFeeWallet) <==> fee_wallet_address
            != spec_associated_token_address(config.fee_wallet, old(funding_wallet).mint),
        fee_wallet_address == spec_associated_token_address(
            config.fee_wallet,
            old(funding_wallet).mint,
        ) && spec_token_fee(*config, amount) is None ==> r == Err::<u64, ErrorCode>(
            ErrorCode::IntegerOverflow,
        ),
        fee_wallet_address == spec_associated_token_address(
            config.fee_wallet,
            old(funding_wallet).mint,
        ) && spec_token_fee(*config, amount) is Some && spec_token_fee(*config, amount).unwrap()
            > old(funding_wallet).amount ==> r == Err::<u64, ErrorCode>(
            ErrorCode::InvalidAmountTransferred,
        ),
{
    let canonical = associated_token_address(config.fee_wallet, funding_wallet.mint);
    if canonical != fee_wallet_address {
        return Err(ErrorCode::InvalidFeeWallet);
    }
    let lock_fee: u64 = match mul_div(
        amount,
        config.fee_in_token_numerator,
        config.fee_in_token_denominator,
    ) {
        Some(f) => f,
        None => {
            return Err(ErrorCode::IntegerOverflow);
        },
    };
    match token_transfer(funding_wallet, fee_wallet, lock_fee) {
        Ok(()) => {},
        Err(e) => {
            return Err(e);
        },
    }
    Ok(lock_fee)
}

} // verus!
