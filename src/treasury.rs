use vstd::prelude::*;

use crate::numeric::Numeric;

verus! {

/// The protocol's pools and the two reward factors.
#[derive(Clone, Copy, Debug)]
pub struct Treasury {
    /// Currency collected for buyback and burn.
    pub buyback_bl: u64,
    /// Currency in the strategic reserve.
    pub reserve_bl: u64,
    /// Currency allocated to the motherlode pool.
    pub motherlode_sol_bl: u64,
    /// Cumulative mining rewards per unit of unclaimed token reward.
    pub miner_rewards_factor: Numeric,
    /// Cumulative staking rewards per unit of stake.
    pub stake_rewards_factor: Numeric,
    /// Tokens currently staked.
    pub total_staked: u64,
    /// Token rewards of miners that are not yet claimed.
    pub total_unclaimed: u64,
    /// Refined token rewards of miners that are not yet claimed.
    pub total_refined: u64,
    /// Currency collected for the leaderboard.
    pub leaderboard_bl: u64,
}

/// Neither factor went down from `t0` to `t1`.
pub open spec fn factors_not_decreased(t0: Treasury, t1: Treasury) -> bool {
    &&& t1.miner_rewards_factor@ >= t0.miner_rewards_factor@
    &&& t1.stake_rewards_factor@ >= t0.stake_rewards_factor@
}

impl Treasury {
    /// An empty treasury: every pool and total zero, both factors zero.
    pub fn new() -> (r: Treasury)
        ensures
            r.buyback_bl == 0 && r.reserve_bl == 0 && r.motherlode_sol_bl == 0,
            r.miner_rewards_factor@ == 0 && r.stake_rewards_factor@ == 0,
            r.total_staked == 0 && r.total_unclaimed == 0 && r.total_refined == 0,
            r.leaderboard_bl == 0,
    {
        Treasury {
            buyback_bl: 0,
            reserve_bl: 0,
            motherlode_sol_bl: 0,
            miner_rewards_factor: Numeric::zero(),
            stake_rewards_factor: Numeric::zero(),
            total_staked: 0,
            total_unclaimed: 0,
            total_refined: 0,
            leaderboard_bl: 0,
        }
    }

    /// Adds `amount` of currency to the buyback pool.
    pub fn wrap(&mut self, amount: u64) -> (r: Result<(), crate::errors::AppError>)
        ensures
            old(self).buyback_bl + amount <= u64::MAX ==> r is Ok && *final(self) == (Treasury {
                buyback_bl: (old(self).buyback_bl + amount) as u64,
                ..*old(self)
            }),
            old(self).buyback_bl + amount > u64::MAX ==> r == Err::<(), crate::errors::AppError>(
                crate::errors::AppError::Overflow,
            ) && *final(self) == *old(self),
    {
        match self.buyback_bl.checked_add(amount) {
            Some(v) => {
                self.buyback_bl = v;
                Ok(())
            },
            None => Err(crate::errors::AppError::Overflow),
        }
    }
}

} // verus!
