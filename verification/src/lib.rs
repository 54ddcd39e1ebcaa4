//! Custody and time-release logic for fungible-asset deposits.
//!
//! A depositor locks a quantity of an asset under an owner identity, a
//! release schedule, and a fee policy; only the current owner may later
//! withdraw according to that schedule.  The crate models the surrounding
//! ledger as plain values (account identities, token balances, native
//! balances) and verifies the locker engine itself: fee decisions, the
//! vault-authority scheme, the linear-emission withdrawal math, and the
//! split/close lifecycle with exact balance conservation.

pub mod accounts;
pub mod country_list;
pub mod engine;
pub mod errors;
pub mod fees;
pub mod math;
pub mod state;

pub use accounts::{AccountId, TokenAccount};
pub use engine::{
    close_locker, create_locker, increment_lock, init_config, init_mint_info, relock,
    split_locker, transfer_ownership, update_config, withdraw_funds, CloseLocker, CreateLocker,
    IncrementLock, InitConfig, InitMintInfo, Relock, SplitLocker, TransferOwnership, UpdateConfig,
    WithdrawFunds,
};
pub use errors::ErrorCode;
pub use math::mul_div;
pub use state::{
    Config, CreateConfigArgs, CreateLockerArgs, Locker, MintInfo, SplitLockerArgs,
    UpdateConfigArgs,
};
