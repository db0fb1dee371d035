use vstd::prelude::*;

use crate::address::Address;
use crate::errors::AppError;
use crate::ledger::{accrual, accrual_fits, settle};
use crate::numeric::{fits_i128, fraction_raw, Numeric};
use crate::treasury::Treasury;

verus! {

/// A participant of the square game.
#[derive(Clone, Copy, Debug)]
pub struct Miner {
    /// The participant.
    pub authority: Address,
    /// Currency deployed on each square in the round being played.
    pub deployed: [u64; 25],
    /// For each square, what the round held on it when this participant first deployed there.
    pub cumulative: [u64; 25],
    /// Currency held back to pay whoever checkpoints this participant late.
    pub checkpoint_fee: u64,
    /// The last round settled.
    pub checkpoint_id: u64,
    /// When token rewards were last claimed.
    pub last_claim_token_at: i64,
    /// When currency rewards were last claimed.
    pub last_claim_sol_at: i64,
    /// The mining factor last seen.
    pub rewards_factor: Numeric,
    /// Claimable currency.
    pub rewards_sol: u64,
    /// Claimable token rewards; also the weight in the mining pool.
    pub rewards_token: u64,
    /// Token rewards earned from other miners' claim fees.
    pub refined_token: u64,
    /// The round being played.
    pub round_id: u64,
    /// Currency earned over the participant's lifetime.
    pub lifetime_rewards_sol: u64,
    /// Tokens earned over the participant's lifetime.
    pub lifetime_rewards_token: u64,
}

/// What the mining pool owes `m` against the treasury's factor.
pub open spec fn miner_owed(m: Miner, t: Treasury) -> int {
    accrual(t.miner_rewards_factor@, m.rewards_factor@, m.rewards_token)
}

/// Whether settling `m` against the mining pool stays in range.
pub open spec fn miner_settle_fits(m: Miner, t: Treasury) -> bool {
    &&& accrual_fits(t.miner_rewards_factor@, m.rewards_factor@, m.rewards_token)
    &&& m.refined_token + miner_owed(m, t) <= u64::MAX
    &&& m.lifetime_rewards_token + miner_owed(m, t) <= u64::MAX
}

/// `m` after settling against the mining pool: what is owed joins the refined and lifetime
/// token balances, and the factor seen becomes the treasury's.
pub open spec fn settled_miner(m: Miner, t: Treasury) -> Miner {
    Miner {
        refined_token: (m.refined_token + miner_owed(m, t)) as u64,
        lifetime_rewards_token: (m.lifetime_rewards_token + miner_owed(m, t)) as u64,
        rewards_factor: t.miner_rewards_factor,
        ..m
    }
}

/// The fee charged on a token claim: a tenth of the unrefined rewards, when other unclaimed
/// rewards remain to share it.
pub open spec fn claim_fee(rewards: u64, unclaimed_after: int) -> int {
    if unclaimed_after > 0 {
        (rewards / 10) as int
    } else {
        0
    }
}

/// Why a token claim by `m` fails, if it does, in the order the checks are made.
pub open spec fn claim_token_error(m: Miner, t: Treasury) -> Option<AppError> {
    let s = settled_miner(m, t);
    let unclaimed = t.total_unclaimed - s.rewards_token;
    let fee = claim_fee(s.rewards_token, unclaimed);
    if !miner_settle_fits(m, t) {
        Some(AppError::Overflow)
    } else if s.refined_token + s.rewards_token > u64::MAX {
        Some(AppError::Overflow)
    } else if s.rewards_token > t.total_unclaimed {
        Some(AppError::Underflow)
    } else if s.refined_token > t.total_refined {
        Some(AppError::Underflow)
    } else if unclaimed > 0 && !fits_i128(
        t.miner_rewards_factor@ + fraction_raw(fee as u64, unclaimed as u64),
    ) {
        Some(AppError::Overflow)
    } else if t.total_refined - s.refined_token + fee > u64::MAX {
        Some(AppError::Overflow)
    } else if s.lifetime_rewards_token < fee {
        Some(AppError::Underflow)
    } else {
        None
    }
}

impl Miner {
    /// A fresh participant: nothing deployed, nothing owed, round and checkpoint zero.
    pub fn new(authority: Address) -> (r: Miner)
        ensures
            r.authority == authority,
            r.deployed@ == Seq::new(25, |i: int| 0u64),
            r.cumulative@ == Seq::new(25, |i: int| 0u64),
            r.checkpoint_fee == 0 && r.checkpoint_id == 0 && r.round_id == 0,
            r.last_claim_token_at == 0 && r.last_claim_sol_at == 0,
            r.rewards_factor@ == 0,
            r.rewards_sol == 0 && r.rewards_token == 0 && r.refined_token == 0,
            r.lifetime_rewards_sol == 0 && r.lifetime_rewards_token == 0,
    {
        let r = Miner {
            authority,
            deployed: [0u64; 25],
            cumulative: [0u64; 25],
            checkpoint_fee: 0,
            checkpoint_id: 0,
            last_claim_token_at: 0,
            last_claim_sol_at: 0,
            rewards_factor: Numeric::zero(),
            rewards_sol: 0,
            rewards_token: 0,
            refined_token: 0,
            round_id: 0,
            lifetime_rewards_sol: 0,
            lifetime_rewards_token: 0,
        };
        assert(r.deployed@ =~= Seq::new(25, |i: int| 0u64));
        assert(r.cumulative@ =~= Seq::new(25, |i: int| 0u64));
        r
    }

    /// Settles this miner against the mining pool. The weight is the miner's own unclaimed
    /// token rewards; what is owed is added to the refined and lifetime balances, and the
    /// factor seen becomes the treasury's, whether or not anything was owed.
    pub fn update_rewards(&mut self, treasury: &Treasury) -> (r: Result<(), AppError>)
        ensures
            miner_settle_fits(*old(self), *treasury) ==> r is Ok && *final(self) == settled_miner(
                *old(self),
                *treasury,
            ),
            !miner_settle_fits(*old(self), *treasury) ==> r == Err::<(), AppError>(
                AppError::Overflow,
            ) && *final(self) == *old(self),
    {
        let owed = match settle(treasury.miner_rewards_factor, self.rewards_factor, self.rewards_token) {
            Ok(v) => v,
            Err(e) => {
                return Err(e);
            },
        };
        let refined = match self.refined_token.checked_add(owed) {
            Some(v) => v,
            None => {
                return Err(AppError::Overflow);
            },
        };
        let lifetime = match self.lifetime_rewards_token.checked_add(owed) {
            Some(v) => v,
            None => {
                return Err(AppError::Overflow);
            },
        };
        self.refined_token = refined;
        self.lifetime_rewards_token = lifetime;
        self.rewards_factor = treasury.miner_rewards_factor;
        Ok(())
    }

    /// Claims all token rewards at time `now`. The miner is settled first; refined and
    /// unrefined rewards are paid out, less a fee of a tenth of the unrefined part while
    /// other miners still hold unclaimed rewards. The fee is shared with those miners by
    /// raising the mining factor. Returns the amount to pay.
    pub fn claim_token(&mut self, now: i64, treasury: &mut Treasury) -> (r: Result<u64, AppError>)
        ensures
            ({
                let m = *old(self);
                let t = *old(treasury);
                let s = settled_miner(m, t);
                let unclaimed = (t.total_unclaimed - s.rewards_token) as u64;
                let fee = claim_fee(s.rewards_token, unclaimed as int);
                match claim_token_error(m, t) {
                    Some(e) => {
                        &&& r == Err::<u64, AppError>(e)
                        &&& *final(self) == m
                        &&& *final(treasury) == t
                    },
                    None => {
                        &&& r == Ok::<u64, AppError>(
                            (s.refined_token + s.rewards_token - fee) as u64,
                        )
                        &&& *final(self) == (Miner {
                            refined_token: 0,
                            rewards_token: 0,
                            last_claim_token_at: now,
                            lifetime_rewards_token: (s.lifetime_rewards_token - fee) as u64,
                            ..s
                        })
                        &&& final(treasury).total_unclaimed == unclaimed
                        &&& final(treasury).total_refined == t.total_refined - s.refined_token
                            + fee
                        &&& final(treasury).miner_rewards_factor@ == t.miner_rewards_factor@ + (
                        if unclaimed > 0 {
                            fraction_raw(fee as u64, unclaimed)
                        } else {
                            0
                        })
                        &&& *final(treasury) == (Treasury {
                            total_unclaimed: final(treasury).total_unclaimed,
                            total_refined: final(treasury).total_refined,
                            miner_rewards_factor: final(treasury).miner_rewards_factor,
                            ..t
                        })
                    },
                }
            }),
            final(treasury).miner_rewards_factor@ >= old(treasury).miner_rewards_factor@,
    {
        let mut m = *self;
        match m.update_rewards(treasury) {
            Ok(()) => {},
            Err(e) => {
                return Err(e);
            },
        }
        let refined = m.refined_token;
        let rewards = m.rewards_token;
        let mut amount = match refined.checked_add(rewards) {
            Some(v) => v,
            None => {
                return Err(AppError::Overflow);
            },
        };
        let unclaimed = match treasury.total_unclaimed.checked_sub(rewards) {
            Some(v) => v,
            None => {
                return Err(AppError::Underflow);
            },
        };
        let mut total_refined = match treasury.total_refined.checked_sub(refined) {
            Some(v) => v,
            None => {
                return Err(AppError::Underflow);
            },
        };
        let mut factor = treasury.miner_rewards_factor;
        m.refined_token = 0;
        m.rewards_token = 0;
        m.last_claim_token_at = now;
        if unclaimed > 0 {
            let fee = rewards / 10;
            amount = amount - fee;
            factor = match factor.checked_add(Numeric::from_fraction(fee, unclaimed)) {
                Some(f) => f,
                None => {
                    return Err(AppError::Overflow);
                },
            };
            total_refined = match total_refined.checked_add(fee) {
                Some(v) => v,
                None => {
                    return Err(AppError::Overflow);
                },
            };
            m.lifetime_rewards_token = match m.lifetime_rewards_token.checked_sub(fee) {
                Some(v) => v,
                None => {
                    return Err(AppError::Underflow);
                },
            };
        }
        *self = m;
        treasury.total_unclaimed = unclaimed;
        treasury.total_refined = total_refined;
        treasury.miner_rewards_factor = factor;
        Ok(amount)
    }

    /// Claims all currency rewards at time `now`; returns the amount to pay.
    pub fn claim_sol(&mut self, now: i64) -> (r: u64)
        ensures
            r == old(self).rewards_sol,
            *final(self) == (Miner { rewards_sol: 0, last_claim_sol_at: now, ..*old(self) }),
    {
        let amount = self.rewards_sol;
        self.rewards_sol = 0;
        self.last_claim_sol_at = now;
        amount
    }
}

} // verus!
