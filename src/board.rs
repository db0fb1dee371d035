use vstd::prelude::*;

use crate::constants::{
    INITIAL_REWARD_PER_ROUND, MIN_REWARD_PER_ROUND, ONE_DAY_SLOTS, ONE_TOKEN,
    PLATEAU_REWARD_PER_ROUND,
};

verus! {

/// The process-wide cursor over rounds and the emission schedule.
#[derive(Clone, Copy, Debug)]
pub struct Board {
    /// The current round.
    pub round_id: u64,
    /// First slot of the deployment window.
    pub start_slot: u64,
    /// End of the deployment window; `u64::MAX` while waiting for the first deployment.
    pub end_slot: u64,
    /// The slot at which mining started: the epoch of the emission schedule.
    pub mining_start_slot: u64,
    /// Tokens in the motherlode.
    pub motherlode_ruby: u64,
    /// Currency in the mini-motherlode.
    pub mini_motherlode_sol: u64,
    /// Tokens minted so far.
    pub total_minted: u64,
}

/// Emission per round at `slot` for a schedule that starts at `start` (zero: not started).
/// Twenty tokens for days 0 to 3; two tokens less on each day after, down to six on day 10;
/// six tokens for sixty more days; then one token less for each whole month of thirty days,
/// never below one token.
pub open spec fn scheduled_reward(start: u64, slot: u64) -> int {
    let days = if slot >= start {
        (slot - start) / (ONE_DAY_SLOTS as int)
    } else {
        0
    };
    if start == 0 || days <= 3 {
        INITIAL_REWARD_PER_ROUND as int
    } else if days <= 10 {
        INITIAL_REWARD_PER_ROUND - (days - 3) * 2 * ONE_TOKEN
    } else if days <= 70 {
        PLATEAU_REWARD_PER_ROUND as int
    } else {
        let stepped = PLATEAU_REWARD_PER_ROUND - ((days - 70) / 30) * ONE_TOKEN;
        if stepped >= MIN_REWARD_PER_ROUND {
            stepped
        } else {
            MIN_REWARD_PER_ROUND as int
        }
    }
}

impl Board {
    /// The board at program start: round zero, no window open, the schedule starting at
    /// `slot`, empty pools.
    pub fn new(slot: u64) -> (r: Board)
        ensures
            r.round_id == 0 && r.start_slot == u64::MAX && r.end_slot == u64::MAX,
            r.mining_start_slot == slot,
            r.motherlode_ruby == 0 && r.mini_motherlode_sol == 0 && r.total_minted == 0,
    {
        Board {
            round_id: 0,
            start_slot: u64::MAX,
            end_slot: u64::MAX,
            mining_start_slot: slot,
            motherlode_ruby: 0,
            mini_motherlode_sol: 0,
            total_minted: 0,
        }
    }

    /// Emission per round at `current_slot`.
    pub fn current_reward(&self, current_slot: u64) -> (r: u64)
        ensures
            r == scheduled_reward(self.mining_start_slot, current_slot),
    {
        if self.mining_start_slot == 0 {
            return INITIAL_REWARD_PER_ROUND;
        }
        let slots_elapsed = current_slot.saturating_sub(self.mining_start_slot);
        let days_elapsed = slots_elapsed / ONE_DAY_SLOTS;
        if days_elapsed <= 3 {
            INITIAL_REWARD_PER_ROUND
        } else if days_elapsed <= 10 {
            let reduction = (days_elapsed - 3) * 2 * ONE_TOKEN;
            INITIAL_REWARD_PER_ROUND - reduction
        } else {
            let days_at_plateau = days_elapsed - 10;
            if days_at_plateau <= 60 {
                PLATEAU_REWARD_PER_ROUND
            } else {
                let months_past = (days_at_plateau - 60) / 30;
                if months_past >= 5 {
                    MIN_REWARD_PER_ROUND
                } else {
                    PLATEAU_REWARD_PER_ROUND - months_past * ONE_TOKEN
                }
            }
        }
    }
}

/// The emission schedule never rises as time passes.
pub proof fn lemma_emission_non_increasing(start: u64, s1: u64, s2: u64)
    requires
        s1 <= s2,
    ensures
        scheduled_reward(start, s2) <= scheduled_reward(start, s1),
{
    let d = ONE_DAY_SLOTS as int;
    let e1 = if s1 >= start { s1 - start } else { 0 };
    let e2 = if s2 >= start { s2 - start } else { 0 };
    assert(e1 <= e2);
    vstd::arithmetic::div_mod::lemma_div_is_ordered(e1, e2, d);
    let days1 = e1 / d;
    let days2 = e2 / d;
    if days1 > 70 && days2 > 70 {
        vstd::arithmetic::div_mod::lemma_div_is_ordered(days1 - 70, days2 - 70, 30);
    }
    if days2 > 70 {
        assert((days2 - 70) / 30 >= 0) by {
            vstd::arithmetic::div_mod::lemma_div_pos_is_pos(days2 - 70, 30);
        }
    }
}

/// The emission schedule stays between the floor and the initial rate.
pub proof fn lemma_emission_bounds(start: u64, slot: u64)
    ensures
        MIN_REWARD_PER_ROUND <= scheduled_reward(start, slot) <= INITIAL_REWARD_PER_ROUND,
{
    let e = if slot >= start { slot - start } else { 0 };
    let days = e / (ONE_DAY_SLOTS as int);
    if days > 70 {
        vstd::arithmetic::div_mod::lemma_div_pos_is_pos(days - 70, 30);
    }
}

} // verus!
