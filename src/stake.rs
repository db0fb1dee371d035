use vstd::prelude::*;

use crate::address::Address;
use crate::constants::MIN_STAKE_AMOUNT;
use crate::errors::AppError;
use crate::ledger::{accrual, accrual_fits, settle};
use crate::numeric::Numeric;
use crate::treasury::Treasury;

verus! {

/// A staker's position in the staking pool.
#[derive(Clone, Copy, Debug)]
pub struct Stake {
    /// The staker.
    pub authority: Address,
    /// Tokens staked; the weight in the staking pool.
    pub balance: u64,
    /// When rewards were last claimed.
    pub last_claim_at: i64,
    /// When the staker last deposited.
    pub last_deposit_at: i64,
    /// When the staker last withdrew.
    pub last_withdraw_at: i64,
    /// The staking factor last seen.
    pub rewards_factor: Numeric,
    /// Claimable rewards.
    pub rewards: u64,
    /// Rewards earned over the staker's lifetime.
    pub lifetime_rewards: u64,
    /// No longer used; kept for the record layout.
    pub is_seeker: u64,
}

/// What the staking pool owes `s` against the treasury's factor.
pub open spec fn stake_owed(s: Stake, t: Treasury) -> int {
    accrual(t.stake_rewards_factor@, s.rewards_factor@, s.balance)
}

/// Whether settling `s` against the staking pool stays in range.
pub open spec fn stake_settle_fits(s: Stake, t: Treasury) -> bool {
    &&& accrual_fits(t.stake_rewards_factor@, s.rewards_factor@, s.balance)
    &&& s.rewards + stake_owed(s, t) <= u64::MAX
    &&& s.lifetime_rewards + stake_owed(s, t) <= u64::MAX
}

/// `s` after settling against the staking pool.
pub open spec fn settled_stake(s: Stake, t: Treasury) -> Stake {
    Stake {
        rewards: (s.rewards + stake_owed(s, t)) as u64,
        lifetime_rewards: (s.lifetime_rewards + stake_owed(s, t)) as u64,
        rewards_factor: t.stake_rewards_factor,
        ..s
    }
}

pub open spec fn min_u64(a: u64, b: u64) -> u64 {
    if a <= b {
        a
    } else {
        b
    }
}

impl Stake {
    /// A fresh position of `authority`, which starts at the current staking factor so that
    /// it earns nothing from rewards handed out before it existed.
    pub fn new(authority: Address, treasury: &Treasury) -> (r: Stake)
        ensures
            r.authority == authority,
            r.balance == 0 && r.rewards == 0 && r.lifetime_rewards == 0 && r.is_seeker == 0,
            r.last_claim_at == 0 && r.last_deposit_at == 0 && r.last_withdraw_at == 0,
            r.rewards_factor == treasury.stake_rewards_factor,
    {
        Stake {
            authority,
            balance: 0,
            last_claim_at: 0,
            last_deposit_at: 0,
            last_withdraw_at: 0,
            rewards_factor: treasury.stake_rewards_factor,
            rewards: 0,
            lifetime_rewards: 0,
            is_seeker: 0,
        }
    }

    /// Settles this position against the staking pool, weighted by the staked balance; the
    /// factor seen becomes the treasury's.
    pub fn update_rewards(&mut self, treasury: &Treasury) -> (r: Result<(), AppError>)
        ensures
            stake_settle_fits(*old(self), *treasury) ==> r is Ok && *final(self) == settled_stake(
                *old(self),
                *treasury,
            ),
            !stake_settle_fits(*old(self), *treasury) ==> r == Err::<(), AppError>(
                AppError::Overflow,
            ) && *final(self) == *old(self),
    {
        let owed = match settle(treasury.stake_rewards_factor, self.rewards_factor, self.balance) {
            Ok(v) => v,
            Err(e) => {
                return Err(e);
            },
        };
        let rewards = match self.rewards.checked_add(owed) {
            Some(v) => v,
            None => {
                return Err(AppError::Overflow);
            },
        };
        let lifetime = match self.lifetime_rewards.checked_add(owed) {
            Some(v) => v,
            None => {
                return Err(AppError::Overflow);
            },
        };
        self.rewards = rewards;
        self.lifetime_rewards = lifetime;
        self.rewards_factor = treasury.stake_rewards_factor;
        Ok(())
    }

    /// Settles, then claims up to `amount` of the rewards at time `now`; returns what was
    /// claimed.
    pub fn claim(&mut self, amount: u64, now: i64, treasury: &Treasury) -> (r: Result<
        u64,
        AppError,
    >)
        ensures
            ({
                let s = settled_stake(*old(self), *treasury);
                let paid = min_u64(s.rewards, amount);
                if stake_settle_fits(*old(self), *treasury) {
                    &&& r == Ok::<u64, AppError>(paid)
                    &&& *final(self) == (Stake {
                        rewards: (s.rewards - paid) as u64,
                        last_claim_at: now,
                        ..s
                    })
                } else {
                    &&& r == Err::<u64, AppError>(AppError::Overflow)
                    &&& *final(self) == *old(self)
                }
            }),
    {
        match self.update_rewards(treasury) {
            Ok(()) => {},
            Err(e) => {
                return Err(e);
            },
        }
        let paid = if self.rewards <= amount {
            self.rewards
        } else {
            amount
        };
        self.rewards = self.rewards - paid;
        self.last_claim_at = now;
        Ok(paid)
    }

    /// Settles, then stakes `amount`, capped by what the sender holds (`sender_amount`), at
    /// time `now`; returns the amount staked.
    pub fn deposit(&mut self, amount: u64, now: i64, treasury: &mut Treasury, sender_amount: u64) -> (r:
        Result<u64, AppError>)
        ensures
            ({
                let s = settled_stake(*old(self), *old(treasury));
                let put = min_u64(sender_amount, amount);
                if stake_settle_fits(*old(self), *old(treasury)) && s.balance + put <= u64::MAX
                    && old(treasury).total_staked + put <= u64::MAX {
                    &&& r == Ok::<u64, AppError>(put)
                    &&& *final(self) == (Stake {
                        balance: (s.balance + put) as u64,
                        last_deposit_at: now,
                        ..s
                    })
                    &&& *final(treasury) == (Treasury {
                        total_staked: (old(treasury).total_staked + put) as u64,
                        ..*old(treasury)
                    })
                } else {
                    &&& r == Err::<u64, AppError>(AppError::Overflow)
                    &&& *final(self) == *old(self)
                    &&& *final(treasury) == *old(treasury)
                }
            }),
    {
        let mut s = *self;
        match s.update_rewards(treasury) {
            Ok(()) => {},
            Err(e) => {
                return Err(e);
            },
        }
        let put = if sender_amount <= amount {
            sender_amount
        } else {
            amount
        };
        let balance = match s.balance.checked_add(put) {
            Some(v) => v,
            None => {
                return Err(AppError::Overflow);
            },
        };
        let total = match treasury.total_staked.checked_add(put) {
            Some(v) => v,
            None => {
                return Err(AppError::Overflow);
            },
        };
        s.balance = balance;
        s.last_deposit_at = now;
        *self = s;
        treasury.total_staked = total;
        Ok(put)
    }

    /// Settles, then unstakes `amount`, capped by the staked balance, at time `now`; returns
    /// the amount unstaked.
    pub fn withdraw(&mut self, amount: u64, now: i64, treasury: &mut Treasury) -> (r: Result<
        u64,
        AppError,
    >)
        ensures
            ({
                let s = settled_stake(*old(self), *old(treasury));
                let out = min_u64(s.balance, amount);
                if stake_settle_fits(*old(self), *old(treasury)) && out
                    <= old(treasury).total_staked {
                    &&& r == Ok::<u64, AppError>(out)
                    &&& *final(self) == (Stake {
                        balance: (s.balance - out) as u64,
                        last_withdraw_at: now,
                        ..s
                    })
                    &&& *final(treasury) == (Treasury {
                        total_staked: (old(treasury).total_staked - out) as u64,
                        ..*old(treasury)
                    })
                } else {
                    &&& r == Err::<u64, AppError>(
                        if stake_settle_fits(*old(self), *old(treasury)) {
                            AppError::Underflow
                        } else {
                            AppError::Overflow
                        },
                    )
                    &&& *final(self) == *old(self)
                    &&& *final(treasury) == *old(treasury)
                }
            }),
    {
        let mut s = *self;
        match s.update_rewards(treasury) {
            Ok(()) => {},
            Err(e) => {
                return Err(e);
            },
        }
        let out = if s.balance <= amount {
            s.balance
        } else {
            amount
        };
        let total = match treasury.total_staked.checked_sub(out) {
            Some(v) => v,
            None => {
                return Err(AppError::Underflow);
            },
        };
        s.balance = s.balance - out;
        s.last_withdraw_at = now;
        *self = s;
        treasury.total_staked = total;
        Ok(out)
    }
}

/// Whether a stake deposit of `amount` meets the minimum.
pub open spec fn stake_amount_ok(amount: u64) -> bool {
    amount >= MIN_STAKE_AMOUNT
}

/// The position a deposit by `signer` works on: one without an owner is opened for the
/// signer at the current staking factor.
pub open spec fn opened_stake(s: Stake, signer: Address, t: Treasury) -> Stake {
    if s.authority.bytes@ == crate::address::zero_bytes() {
        Stake { authority: signer, rewards_factor: t.stake_rewards_factor, ..s }
    } else {
        s
    }
}

/// A stake deposit by `signer`: the amount must be at least one token; a position without an
/// owner is opened for the signer first; then the deposit is made.
pub fn stake_deposit(
    stake: &mut Stake,
    treasury: &mut Treasury,
    signer: &Address,
    amount: u64,
    sender_amount: u64,
    now: i64,
) -> (r: Result<u64, AppError>)
    ensures
        !stake_amount_ok(amount) ==> r == Err::<u64, AppError>(AppError::AmountTooSmall)
            && *final(stake) == *old(stake) && *final(treasury) == *old(treasury),
        stake_amount_ok(amount) ==> ({
            let o = opened_stake(*old(stake), *signer, *old(treasury));
            let s = settled_stake(o, *old(treasury));
            let put = min_u64(sender_amount, amount);
            if stake_settle_fits(o, *old(treasury)) && s.balance + put <= u64::MAX && old(treasury).total_staked + put <= u64::MAX {
                &&& r == Ok::<u64, AppError>(put)
                &&& *final(stake) == (Stake {
                    balance: (s.balance + put) as u64,
                    last_deposit_at: now,
                    ..s
                })
                &&& *final(treasury) == (Treasury {
                    total_staked: (old(treasury).total_staked + put) as u64,
                    ..*old(treasury)
                })
            } else {
                &&& r == Err::<u64, AppError>(AppError::Overflow)
                &&& *final(stake) == *old(stake)
                &&& *final(treasury) == *old(treasury)
            }
        }),
{
    if amount < MIN_STAKE_AMOUNT {
        return Err(AppError::AmountTooSmall);
    }
    let mut s = *stake;
    if s.authority.is_zero() {
        s.authority = *signer;
        s.rewards_factor = treasury.stake_rewards_factor;
    }
    let r = s.deposit(amount, now, treasury, sender_amount);
    if r.is_ok() {
        *stake = s;
    }
    r
}

/// A stake withdrawal by `signer`, who must own the position.
pub fn stake_withdraw(
    stake: &mut Stake,
    treasury: &mut Treasury,
    signer: &Address,
    amount: u64,
    now: i64,
) -> (r: Result<u64, AppError>)
    ensures
        old(stake).authority.bytes@ != signer.bytes@ ==> r == Err::<u64, AppError>(
            AppError::NotAuthorized,
        ) && *final(stake) == *old(stake) && *final(treasury) == *old(treasury),
        old(stake).authority.bytes@ == signer.bytes@ ==> ({
            let s = settled_stake(*old(stake), *old(treasury));
            let out = min_u64(s.balance, amount);
            if stake_settle_fits(*old(stake), *old(treasury)) && out <= old(treasury).total_staked {
                &&& r == Ok::<u64, AppError>(out)
                &&& *final(stake) == (Stake {
                    balance: (s.balance - out) as u64,
                    last_withdraw_at: now,
                    ..s
                })
                &&& *final(treasury) == (Treasury {
                    total_staked: (old(treasury).total_staked - out) as u64,
                    ..*old(treasury)
                })
            } else {
                &&& r == Err::<u64, AppError>(
                    if stake_settle_fits(*old(stake), *old(treasury)) {
                        AppError::Underflow
                    } else {
                        AppError::Overflow
                    },
                )
                &&& *final(stake) == *old(stake)
                &&& *final(treasury) == *old(treasury)
            }
        }),
{
    if !stake.authority.same(signer) {
        return Err(AppError::NotAuthorized);
    }
    stake.withdraw(amount, now, treasury)
}

/// A claim of all staking rewards by `signer`, who must own the position; returns the
/// amount to pay.
pub fn stake_claim(stake: &mut Stake, treasury: &Treasury, signer: &Address, now: i64) -> (r:
    Result<u64, AppError>)
    ensures
        old(stake).authority.bytes@ != signer.bytes@ ==> r == Err::<u64, AppError>(
            AppError::NotAuthorized,
        ) && *final(stake) == *old(stake),
        old(stake).authority.bytes@ == signer.bytes@ ==> ({
            let s = settled_stake(*old(stake), *treasury);
            if stake_settle_fits(*old(stake), *treasury) {
                &&& r == Ok::<u64, AppError>(s.rewards)
                &&& *final(stake) == (Stake { rewards: 0, last_claim_at: now, ..s })
            } else {
                &&& r == Err::<u64, AppError>(AppError::Overflow)
                &&& *final(stake) == *old(stake)
            }
        }),
{
    if !stake.authority.same(signer) {
        return Err(AppError::NotAuthorized);
    }
    stake.claim(u64::MAX, now, treasury)
}

} // verus!
