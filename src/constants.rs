use vstd::prelude::*;

verus! {

/// One token, in indivisible units (nine decimals).
pub const ONE_TOKEN: u64 = 1_000_000_000;

/// Emission per round during the first days of mining: 20 tokens.
pub const INITIAL_REWARD_PER_ROUND: u64 = 20_000_000_000;

/// Emission floor per round: 1 token.
pub const MIN_REWARD_PER_ROUND: u64 = 1_000_000_000;

/// Emission per round once the daily decrease has run out: 6 tokens.
pub const PLATEAU_REWARD_PER_ROUND: u64 = 6_000_000_000;

/// Length of the deployment window, in slots.
pub const DEPLOYMENT_WINDOW_SLOTS: u64 = 150;

/// Twelve hours, in slots: the final part of the claim window in which a bot earns the
/// checkpoint fee.
pub const TWELVE_HOURS_SLOTS: u64 = 108_000;

/// One day, in slots.
pub const ONE_DAY_SLOTS: u64 = 216_000;

/// Breather between the end of a deployment window and the rollover, in slots.
pub const INTERMISSION_SLOTS: u64 = 10;

/// Maximum token supply: 6,000,000 tokens.
pub const MAX_SUPPLY: u64 = 6_000_000_000_000_000;

/// Growth of the token motherlode per round: 3 tokens.
pub const MOTHERLODE_INCREMENT: u64 = 3_000_000_000;

/// Referral fee in basis points (1%).
pub const REFERRAL_FEE_BPS: u64 = 100;

/// Fee held back for whoever checkpoints a miner late in the claim window.
pub const CHECKPOINT_FEE: u64 = 10_000;

/// Smallest deployment per square.
pub const MIN_DEPLOYMENT: u64 = 1_000;

/// Smallest stake deposit: 1 token.
pub const MIN_STAKE_AMOUNT: u64 = 1_000_000_000;

/// Number of squares on the board (a 5x5 grid).
pub const TOTAL_BOARD: usize = 25;

/// Share of the losing squares for the winners, in basis points.
pub const WINNERS_BPS: u64 = 8800;

/// Share of the losing squares for buyback, in basis points.
pub const BUYBACK_BPS: u64 = 800;

/// Share of the losing squares for the strategic reserve, in basis points.
pub const RESERVE_BPS: u64 = 200;

/// Share of the losing squares for the motherlode pool, in basis points.
pub const MOTHERLODE_BPS: u64 = 200;

/// Platform fee, in basis points of the winners' share.
pub const PLATFORM_FEE_BPS: u64 = 100;

} // verus!
