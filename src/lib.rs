//! Settlement core of a round-based square game: rounds and their randomness, the
//! distribution of losing deposits and the decaying token emission at rollover, the lazy
//! reward ledger shared by the mining and staking pools, per-participant checkpoints,
//! referrals and automated deployment.

pub mod address;
pub mod automation;
pub mod board;
pub mod checkpoint;
pub mod config;
pub mod constants;
pub mod deploy;
pub mod entropy;
pub mod errors;
pub mod events;
pub mod ledger;
pub mod miner;
pub mod numeric;
pub mod referral;
pub mod reset;
pub mod round;
pub mod safety;
pub mod stake;
pub mod treasury;
