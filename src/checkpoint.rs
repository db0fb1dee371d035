use vstd::prelude::*;

use crate::address::split_bytes;
use crate::constants::TWELVE_HOURS_SLOTS;
use crate::errors::AppError;
use crate::events::{CheckpointEvent, ReferralRewardAccruedEvent};
use crate::ledger::{lemma_sum_nonnegative, lemma_sum_prefix, sum};
use crate::miner::{miner_settle_fits, settled_miner, Miner};
use crate::referral::{referral_fee_of, split_referral_fee, Referral};
use crate::round::{all_bytes, all_bytes_are, lemma_prefix_le, reversed, rng_of, winning_square_of, Round};
use crate::treasury::{factors_not_decreased, Treasury};

verus! {

/// What a checkpoint reads from its surroundings.
#[derive(Clone, Copy, Debug)]
pub struct CheckpointContext {
    /// The board's current round.
    pub board_round_id: u64,
    /// The current slot.
    pub slot: u64,
    /// The current time.
    pub now: i64,
    /// Currency held by the round's record.
    pub round_balance: u64,
    /// The least the round's record must keep.
    pub round_rent_reserve: u64,
    /// Currency held by the miner's record before the checkpoint.
    pub miner_balance: u64,
    /// The least the miner's record must keep.
    pub miner_rent_reserve: u64,
}

/// What a checkpoint hands to the outside world.
#[derive(Clone, Copy, Debug)]
pub struct CheckpointOutcome {
    /// Currency to move from the round's record to the miner's.
    pub sol_transfer: u64,
    /// Currency to move from the miner's record to the caller.
    pub bot_fee: u64,
    /// Present when the round was settled with rewards computed.
    pub event: Option<CheckpointEvent>,
    /// Present when a referral fee was accrued.
    pub referral_event: Option<ReferralRewardAccruedEvent>,
}

/// A checkpoint does nothing when the miner already settled its round, when that round is
/// still the board's current one, or when the round given is not the miner's.
pub open spec fn checkpoint_skipped(m: Miner, r: Round, board_round_id: u64) -> bool {
    ||| m.checkpoint_id == m.round_id
    ||| r.id == board_round_id
    ||| r.id != m.round_id
}

/// `amount * part / whole`, rounded down.
pub open spec fn share(amount: u64, part: u64, whole: u64) -> int {
    (amount * part) / (whole as int)
}

/// A miner's deposit on the winning square exceeds the round's: the records disagree.
pub open spec fn invalid_deployment(m: Miner, r: Round) -> bool {
    match rng_of(r.slot_hash@) {
        Some(v) => r.deployed@[winning_square_of(v)] < m.deployed@[winning_square_of(v)],
        None => false,
    }
}

/// What `m` earns from round `r`: currency, tokens before the referral fee, and whether the
/// miner becomes the round's top miner. Without a random value every deposit is refunded.
/// Otherwise a deposit on the winning square is refunded and earns its proportional share
/// of the winnings and of the motherlode; in a split round it earns its share of the
/// emission, else the whole emission goes to the miner whose range of the square's
/// cumulative deposits holds the sample.
pub open spec fn round_rewards(m: Miner, r: Round) -> (int, int, bool) {
    match rng_of(r.slot_hash@) {
        None => (sum(m.deployed@), 0, false),
        Some(v) => {
            let ws = winning_square_of(v);
            let md = m.deployed@[ws];
            let rd = r.deployed@[ws];
            if md == 0 {
                (0, 0, false)
            } else {
                let sol = md + share(r.total_winnings, md, rd) + (if r.motherlode > 0 {
                    share(r.motherlode, md, rd)
                } else {
                    0
                });
                if r.top_miner.bytes@ == split_bytes() {
                    (sol, share(r.top_miner_reward, md, rd), false)
                } else {
                    let sample = reversed(v) % rd;
                    if m.cumulative@[ws] <= sample < m.cumulative@[ws] + md {
                        (sol, r.top_miner_reward as int, true)
                    } else {
                        (sol, 0, false)
                    }
                }
            }
        },
    }
}

/// Whether the checkpoint falls in the last twelve hours of the claim window.
pub open spec fn in_bot_window(r: Round, slot: u64) -> bool {
    slot + TWELVE_HOURS_SLOTS >= r.expires_at
}

/// The currency actually paid: what is owed, capped by what the round holds above its
/// reserve.
pub open spec fn paid_sol(owed: int, ctx: CheckpointContext) -> int {
    let available = if ctx.round_balance >= ctx.round_rent_reserve {
        ctx.round_balance - ctx.round_rent_reserve
    } else {
        0
    };
    if owed <= available {
        owed
    } else {
        available
    }
}

/// The referral fee taken from a gross token reward.
pub open spec fn token_fee(token: int) -> int {
    if token > 0 {
        referral_fee_of(token as u64)
    } else {
        0
    }
}

/// The miner once the bot fee, if due, has been taken from its reserve.
pub open spec fn after_bot_fee(m: Miner, r: Round, slot: u64) -> Miner {
    Miner { checkpoint_fee: if in_bot_window(r, slot) { 0 } else { m.checkpoint_fee }, ..m }
}

/// Whether settling `m` against `r` stays in range.
pub open spec fn checkpoint_fits(m: Miner, r: Round, t: Treasury, f: Referral, ctx: CheckpointContext) -> bool {
    let (sol, token, top) = round_rewards(m, r);
    let s = settled_miner(after_bot_fee(m, r, ctx.slot), t);
    let fee = token_fee(token);
    let paid = paid_sol(sol, ctx);
    &&& sol <= u64::MAX
    &&& miner_settle_fits(m, t)
    &&& f.pending_rewards + fee <= u64::MAX
    &&& s.rewards_token + (token - fee) <= u64::MAX
    &&& s.lifetime_rewards_token + (token - fee) <= u64::MAX
    &&& s.rewards_sol + paid <= u64::MAX
    &&& s.lifetime_rewards_sol + paid <= u64::MAX
    &&& t.total_unclaimed + token <= u64::MAX
}

/// The result of a checkpoint of miner `m` against round `r`: the new miner, round,
/// treasury and referral, the currency paid to the miner and the fee paid to the caller;
/// or why it is refused.
pub open spec fn checkpoint_spec(m: Miner, r: Round, t: Treasury, f: Referral, ctx: CheckpointContext) -> Result<
    (Miner, Round, Treasury, Referral, u64, u64),
    AppError,
> {
    let settled_id = Miner { checkpoint_id: m.round_id, ..m };
    if checkpoint_skipped(m, r, ctx.board_round_id) {
        Ok((m, r, t, f, 0, 0))
    } else if all_bytes(r.slot_hash@, 0) || ctx.slot >= r.expires_at {
        Ok((settled_id, r, t, f, 0, 0))
    } else if invalid_deployment(m, r) {
        Err(AppError::InvalidDeployment)
    } else if !checkpoint_fits(m, r, t, f, ctx) {
        Err(AppError::Overflow)
    } else if ctx.miner_balance < ctx.miner_rent_reserve + m.checkpoint_fee {
        Err(AppError::InsufficientRent)
    } else {
        let (sol, token, top) = round_rewards(m, r);
        let s = settled_miner(after_bot_fee(m, r, ctx.slot), t);
        let fee = token_fee(token);
        let paid = paid_sol(sol, ctx);
        let m1 = Miner {
            checkpoint_id: r.id,
            rewards_token: (s.rewards_token + (token - fee)) as u64,
            lifetime_rewards_token: (s.lifetime_rewards_token + (token - fee)) as u64,
            rewards_sol: (s.rewards_sol + paid) as u64,
            lifetime_rewards_sol: (s.lifetime_rewards_sol + paid) as u64,
            ..s
        };
        let r1 = if top {
            Round { top_miner: m.authority, ..r }
        } else {
            r
        };
        let t1 = Treasury { total_unclaimed: (t.total_unclaimed + token) as u64, ..t };
        let f1 = if token > 0 {
            Referral { pending_rewards: (f.pending_rewards + fee) as u64, ..f }
        } else {
            f
        };
        let bot = if in_bot_window(r, ctx.slot) {
            m.checkpoint_fee
        } else {
            0
        };
        Ok((m1, r1, t1, f1, paid as u64, bot))
    }
}

/// The total of the amounts, or `None` when it exceeds `u64`.
fn checked_total(a: &[u64; 25]) -> (r: Option<u64>)
    ensures
        sum(a@) <= u64::MAX ==> r == Some(sum(a@) as u64),
        sum(a@) > u64::MAX ==> r is None,
{
    let mut total: u64 = 0;
    let mut i: usize = 0;
    proof {
        assert(a@.subrange(0, 0) =~= Seq::<u64>::empty());
    }
    while i < 25
        invariant
            i <= 25,
            total == sum(a@.subrange(0, i as int)),
        decreases 25 - i,
    {
        proof {
            lemma_sum_prefix(a@, i as int);
            lemma_prefix_le(a@, i as int + 1);
        }
        match total.checked_add(a[i]) {
            Some(v) => {
                total = v;
            },
            None => {
                return None;
            },
        }
        i = i + 1;
    }
    assert(a@.subrange(0, 25) =~= a@);
    Some(total)
}

/// `amount * part / whole`, rounded down, for `part <= whole`.
fn share_of(amount: u64, part: u64, whole: u64) -> (r: u64)
    requires
        0 < whole,
        part <= whole,
    ensures
        r == share(amount, part, whole),
        r <= amount,
{
    proof {
        lemma_share_le(amount, part, whole);
        assert(amount * part <= u64::MAX * u64::MAX) by (nonlinear_arith)
            requires amount <= u64::MAX, part <= u64::MAX, amount >= 0, part >= 0;
    }
    ((amount as u128 * part as u128) / whole as u128) as u64
}

proof fn lemma_share_le(amount: u64, part: u64, whole: u64)
    requires
        0 < whole,
        part <= whole,
    ensures
        0 <= share(amount, part, whole) <= amount,
{
    assert((amount * part) / (whole as int) <= amount) by (nonlinear_arith)
        requires 0 < whole, part <= whole, amount >= 0, part >= 0;
    assert((amount * part) / (whole as int) >= 0) by (nonlinear_arith)
        requires 0 < whole, amount >= 0, part >= 0;
}

/// What `m` earns from `r`, or why it cannot be computed.
fn compute_round_rewards(m: &Miner, r: &Round) -> (res: Result<(u64, u64, bool), AppError>)
    ensures
        invalid_deployment(*m, *r) ==> res == Err::<(u64, u64, bool), AppError>(
            AppError::InvalidDeployment,
        ),
        !invalid_deployment(*m, *r) && round_rewards(*m, *r).0 <= u64::MAX ==> (res is Ok
            && res->Ok_0.0 == round_rewards(*m, *r).0 && res->Ok_0.1 == round_rewards(*m, *r).1
            && res->Ok_0.2 == round_rewards(*m, *r).2),
        !invalid_deployment(*m, *r) && round_rewards(*m, *r).0 > u64::MAX ==> res == Err::<
            (u64, u64, bool),
            AppError,
        >(AppError::Overflow),
        !invalid_deployment(*m, *r) ==> 0 <= round_rewards(*m, *r).1 <= u64::MAX,
{
    match r.rng() {
        None => {
            match checked_total(&m.deployed) {
                Some(v) => {
                    proof {
                        lemma_sum_nonnegative(m.deployed@);
                    }
                    Ok((v, 0, false))
                },
                None => Err(AppError::Overflow),
            }
        },
        Some(v) => {
            let ws = r.winning_square(v);
            if r.deployed[ws] < m.deployed[ws] {
                return Err(AppError::InvalidDeployment);
            }
            let md = m.deployed[ws];
            let rd = r.deployed[ws];
            if md == 0 {
                return Ok((0, 0, false));
            }
            proof {
                lemma_share_le(r.top_miner_reward, md, rd);
            }
            let winnings = share_of(r.total_winnings, md, rd);
            let mut sol = match md.checked_add(winnings) {
                Some(x) => x,
                None => {
                    return Err(AppError::Overflow);
                },
            };
            if r.motherlode > 0 {
                let ml = share_of(r.motherlode, md, rd);
                sol = match sol.checked_add(ml) {
                    Some(x) => x,
                    None => {
                        return Err(AppError::Overflow);
                    },
                };
            }
            let split = crate::address::Address::split();
            if r.top_miner.same(&split) {
                let token = share_of(r.top_miner_reward, md, rd);
                Ok((sol, token, false))
            } else {
                let sample = r.top_miner_sample(v, ws);
                if m.cumulative[ws] <= sample && (sample as u128) < (m.cumulative[ws] as u128)
                    + (md as u128) {
                    Ok((sol, r.top_miner_reward, true))
                } else {
                    Ok((sol, 0, false))
                }
            }
        },
    }
}

/// Settles miner `miner` against its round `round`, callable by anyone.
///
/// Does nothing when the miner already settled, when the round is still current, or when the
/// round is not the miner's. A round that never resolved, or whose claim window has expired,
/// is only marked settled, with no reward. Otherwise the caller earns the miner's prepaid fee
/// in the last twelve hours of the window; the miner is settled against the mining pool; its
/// currency and token rewards for the round are computed; one percent of the token reward
/// goes to the referrer; the rest, and the currency paid (capped by what the round holds above
/// its reserve), are credited to the miner, which is marked settled. The miner's record must
/// keep its reserve and remaining fee. A refused checkpoint changes nothing.
pub fn checkpoint(
    miner: &mut Miner,
    round: &mut Round,
    treasury: &mut Treasury,
    referral: &mut Referral,
    ctx: &CheckpointContext,
) -> (r: Result<CheckpointOutcome, AppError>)
    ensures
        factors_not_decreased(*old(treasury), *final(treasury)),
        match checkpoint_spec(*old(miner), *old(round), *old(treasury), *old(referral), *ctx) {
            Ok(v) => {
                &&& r is Ok
                &&& *final(miner) == v.0
                &&& *final(round) == v.1
                &&& *final(treasury) == v.2
                &&& *final(referral) == v.3
                &&& r->Ok_0.sol_transfer == v.4
                &&& r->Ok_0.bot_fee == v.5
            },
            Err(e) => {
                &&& r == Err::<CheckpointOutcome, AppError>(e)
                &&& *final(miner) == *old(miner)
                &&& *final(round) == *old(round)
                &&& *final(treasury) == *old(treasury)
                &&& *final(referral) == *old(referral)
            },
        },
{
    let nothing = CheckpointOutcome { sol_transfer: 0, bot_fee: 0, event: None, referral_event: None };
    if miner.checkpoint_id == miner.round_id || round.id == ctx.board_round_id || round.id
        != miner.round_id {
        return Ok(nothing);
    }
    if all_bytes_are(&round.slot_hash, 0) || ctx.slot >= round.expires_at {
        miner.checkpoint_id = miner.round_id;
        return Ok(nothing);
    }
    let mut m = *miner;
    let mut rd = *round;
    let mut bot_fee: u64 = 0;
    if ctx.slot as u128 + TWELVE_HOURS_SLOTS as u128 >= round.expires_at as u128 {
        bot_fee = m.checkpoint_fee;
        m.checkpoint_fee = 0;
    }
    let (sol, token, top) = match compute_round_rewards(miner, round) {
        Ok(v) => v,
        Err(e) => {
            return Err(e);
        },
    };
    if top {
        rd.top_miner = m.authority;
    }
    match m.update_rewards(treasury) {
        Ok(()) => {},
        Err(e) => {
            return Err(e);
        },
    }
    let (fee, net) = if token > 0 {
        split_referral_fee(token)
    } else {
        (0, 0)
    };
    let pending = match referral.pending_rewards.checked_add(fee) {
        Some(v) => v,
        None => {
            return Err(AppError::Overflow);
        },
    };
    let available = ctx.round_balance.saturating_sub(ctx.round_rent_reserve);
    let paid = if sol <= available {
        sol
    } else {
        available
    };
    m.checkpoint_id = rd.id;
    m.rewards_token = match m.rewards_token.checked_add(net) {
        Some(v) => v,
        None => {
            return Err(AppError::Overflow);
        },
    };
    m.lifetime_rewards_token = match m.lifetime_rewards_token.checked_add(net) {
        Some(v) => v,
        None => {
            return Err(AppError::Overflow);
        },
    };
    m.rewards_sol = match m.rewards_sol.checked_add(paid) {
        Some(v) => v,
        None => {
            return Err(AppError::Overflow);
        },
    };
    m.lifetime_rewards_sol = match m.lifetime_rewards_sol.checked_add(paid) {
        Some(v) => v,
        None => {
            return Err(AppError::Overflow);
        },
    };
    let unclaimed = match treasury.total_unclaimed.checked_add(token) {
        Some(v) => v,
        None => {
            return Err(AppError::Overflow);
        },
    };
    if (ctx.miner_balance as u128) < (ctx.miner_rent_reserve as u128) + (miner.checkpoint_fee as u128) {
        return Err(AppError::InsufficientRent);
    }
    let winning_square = match round.rng() {
        Some(v) => round.winning_square(v) as u64,
        None => u64::MAX,
    };
    let event = CheckpointEvent {
        miner: m.authority,
        round_id: rd.id,
        winning_square,
        rewards_sol: sol,
        rewards_token: net,
        bot_fee,
        is_top_miner: rd.top_miner.same(&m.authority),
        timestamp: ctx.now,
    };
    let referral_event = if token > 0 {
        Some(
            ReferralRewardAccruedEvent {
                referee: m.authority,
                referrer: referral.referrer,
                amount: fee,
                timestamp: ctx.now,
            },
        )
    } else {
        None
    };
    *miner = m;
    *round = rd;
    treasury.total_unclaimed = unclaimed;
    if token > 0 {
        referral.pending_rewards = pending;
    }
    Ok(CheckpointOutcome { sol_transfer: paid, bot_fee, event: Some(event), referral_event })
}

/// Checkpointing is idempotent: once a checkpoint of a miner against a round has gone
/// through, checkpointing the result again, at any later slot of the same board round,
/// changes nothing and pays nothing.
pub proof fn lemma_checkpoint_idempotent(
    m: Miner,
    r: Round,
    t: Treasury,
    f: Referral,
    ctx: CheckpointContext,
    ctx2: CheckpointContext,
)
    requires
        checkpoint_spec(m, r, t, f, ctx) is Ok,
        ctx2.board_round_id == ctx.board_round_id,
    ensures
        ({
            let v = checkpoint_spec(m, r, t, f, ctx)->Ok_0;
            checkpoint_spec(v.0, v.1, v.2, v.3, ctx2) == Ok::<
                (Miner, Round, Treasury, Referral, u64, u64),
                AppError,
            >((v.0, v.1, v.2, v.3, 0, 0))
        }),
{
}

} // verus!
