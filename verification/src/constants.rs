//! Fixed parameters of the game's economy. Currency amounts are in lamports
//! (10^-9 of the native coin); bean balances are in whole beans.

use vstd::prelude::*;

verus! {

/// Lamports per bean: the fixed conversion rate between currency and beans.
pub const SOL_PER_BEAN: u64 = 1000;

pub const SECONDS_PER_DAY: u64 = 86400;

/// Percentage taken off every deposit before beans are credited.
pub const DEPOSIT_FEE: u64 = 1;

/// Percentage taken off every withdrawal before the decaying tax applies.
pub const WITHDRAWAL_FEE: u64 = 5;

/// Shares of a collected fee forwarded to the three fixed recipients,
/// in percent of the fee. The remainder stays with the pool.
pub const DEV_FEE: u64 = 10;
pub const MARKETING_FEE: u64 = 19;
pub const CEO_FEE: u64 = 66;

/// Percentage of the deposit's bean value granted to the referrer when a
/// referred account makes its very first deposit.
pub const FIRST_DEPOSIT_REF_BONUS: u64 = 5;

/// Smallest accepted deposit, in lamports.
pub const MIN_DEPOSIT: u64 = 10_000_000;

/// Smallest accrued reward (in lamports) that a rebake-only compound accepts.
pub const MIN_BAKE: u64 = 10_000_000;

/// Per-wallet ceiling on the bean balance, expressed in lamports.
pub const MAX_WALLET_TVL_IN_SOL: u64 = 200_000_000_000;

/// Ceiling on the reward a single accrual can yield, expressed in lamports.
pub const MAX_DAILY_REWARDS_IN_SOL: u64 = 5_000_000_000;

/// Cumulative deposit a referred account must reach before it counts toward
/// its referrer's bonus tier.
pub const MIN_REF_DEPOSIT_FOR_BONUS: u64 = 500_000_000;

} // verus!
