//! The ledger model the engine runs against.
//!
//! The surrounding ledger is modeled as plain values: an account identity
//! is an opaque number, a token wallet is a record of mint, owner and
//! balance, and a native balance is a plain amount.  The derived,
//! non-key-holding vault authority is a pure function of the owning
//! locker's address and a stored seed; the custody layer accepts it as
//! proof of authority in lieu of a signature.

use vstd::prelude::*;

verus! {

use crate::errors::ErrorCode;

/// An account identity (an address on the surrounding ledger).
pub type AccountId = u64;

/// Mixing constant that keeps the two derivation schemes below from
/// colliding with each other or with plain addresses.
pub const AUTHORITY_TAG: u64 = 0x9e3779b97f4a7c15;

/// Mixing constant for the canonical fee-collection holding of an asset.
pub const ASSOCIATED_TAG: u64 = 0x517cc1b727220a95;

/// The deterministic, non-key controller bound to a locker's address: the
/// only authority able to move funds out of that locker's vault.
pub open spec fn spec_derive_authority(locker_address: AccountId, seed: u8) -> AccountId {
    locker_address ^ (seed as u64) ^ AUTHORITY_TAG
}

/// Derives the vault authority for a locker address and its stored seed.
pub fn derive_authority(locker_address: AccountId, seed: u8) -> (r: AccountId)
    ensures
        r == spec_derive_authority(locker_address, seed),
{
    locker_address ^ (seed as u64) ^ AUTHORITY_TAG
}

/// The canonical fee-collection holding for a fee destination and an asset
/// type: derived, never arbitrary.
pub open spec fn spec_associated_token_address(owner: AccountId, mint: AccountId) -> AccountId {
    owner ^ mint ^ ASSOCIATED_TAG
}

/// Derives the canonical token holding of `owner` for asset type `mint`.
pub fn associated_token_address(owner: AccountId, mint: AccountId) -> (r: AccountId)
    ensures
        r == spec_associated_token_address(owner, mint),
{
    owner ^ mint ^ ASSOCIATED_TAG
}

/// An asset-holding account: the asset type it holds, the authority that
/// may move funds out of it, and its balance.
#[derive(Clone, Copy, Debug, PartialEq, Eq, Structural)]
pub struct TokenAccount {
    /// The asset type this wallet holds.
    pub mint: AccountId,
    /// The authority allowed to transfer funds out of this wallet.
    pub owner: AccountId,
    /// The held balance.
    pub amount: u64,
}

/// Whether a transfer of `amount` out of `from` into `to` can be applied
/// exactly: the source holds enough and the destination does not overflow.
pub open spec fn spec_transfer_fits(from: TokenAccount, to: TokenAccount, amount: u64) -> bool {
    &&& amount <= from.amount
    &&& to.amount + amount <= u64::MAX
}

/// Moves `amount` from one holding to another, or fails with the source
/// and destination exactly as they were.  The observed balance delta of a
/// success equals the requested amount exactly; a source that cannot cover
/// the amount is the `InvalidAmountTransferred` invariant violation, and a
/// destination that cannot take it is an arithmetic overflow.
pub fn token_transfer(from: &mut TokenAccount, to: &mut TokenAccount, amount: u64) -> (r: Result<
    (),
    ErrorCode,
>)
    ensures
        r is Ok <==> spec_transfer_fits(*old(from), *old(to), amount),
        r is Ok ==> *final(from) == (TokenAccount {
            amount: (old(from).amount - amount) as u64,
            ..*old(from)
        }),
        r is Ok ==> *final(to) == (TokenAccount {
            amount: (old(to).amount + amount) as u64,
            ..*old(to)
        }),
        r is Err ==> *final(from) == *old(from) && *final(to) == *old(to),
        r == Err::<(), ErrorCode>(ErrorCode::InvalidAmountTransferred) <==> amount
            > old(from).amount,
        r == Err::<(), ErrorCode>(ErrorCode::IntegerOverflow) <==> amount <= old(from).amount
            && old(to).amount + amount > u64::MAX,
{
    if amount > from.amount {
        return Err(ErrorCode::InvalidAmountTransferred);
    }
    if amount > u64::MAX - to.amount {
        return Err(ErrorCode::IntegerOverflow);
    }
    from.amount = from.amount - amount;
    to.amount = to.amount + amount;
    Ok(())
}

/// Moves `amount` of the native currency from one balance to another, with
/// the same exact-delta guarantee as `token_transfer`.
pub fn native_transfer(from: &mut u64, to: &mut u64, amount: u64) -> (r: Result<(), ErrorCode>)
    ensures
        r is Ok <==> amount <= *old(from) && *old(to) + amount <= u64::MAX,
        r is Ok ==> *final(from) == *old(from) - amount && *final(to) == *old(to) + amount,
        r is Err ==> *final(from) == *old(from) && *final(to) == *old(to),
        r == Err::<(), ErrorCode>(ErrorCode::InvalidAmountTransferred) <==> amount > *old(from),
        r == Err::<(), ErrorCode>(ErrorCode::IntegerOverflow) <==> amount <= *old(from) && *old(to)
            + amount > u64::MAX,
{
    if amount > *from {
        return Err(ErrorCode::InvalidAmountTransferred);
    }
    if amount > u64::MAX - *to {
        return Err(ErrorCode::IntegerOverflow);
    }
    *from = *from - amount;
    *to = *to + amount;
    Ok(())
}

} // verus!
