use vstd::prelude::*;

use crate::address::{split_bytes, Address};
use crate::board::{scheduled_reward, Board};
use crate::constants::{
    BUYBACK_BPS, INTERMISSION_SLOTS, MAX_SUPPLY, MOTHERLODE_BPS, MOTHERLODE_INCREMENT,
    PLATFORM_FEE_BPS, RESERVE_BPS, WINNERS_BPS,
};
use crate::entropy::EntropySample;
use crate::errors::AppError;
use crate::events::ResetEvent;
use crate::round::{motherlode_of, rng_of, split_of, winning_square_of, Round};
use crate::treasury::{factors_not_decreased, Treasury};

verus! {

/// How the currency on the losing squares is shared out.
#[derive(Clone, Copy, Debug)]
pub struct Distribution {
    /// 88% of the losing total, before the platform fee.
    pub winners_share: u64,
    /// 8% for buyback.
    pub buyback: u64,
    /// 2% for the strategic reserve.
    pub reserve: u64,
    /// 2% for the motherlode pool.
    pub motherlode: u64,
    /// 1% of the winners' share.
    pub platform_fee: u64,
    /// The winners' share net of the platform fee.
    pub winners: u64,
}

/// `amount` times `bps` basis points, rounded down.
pub open spec fn bps_of(amount: int, bps: u64) -> int {
    (amount * bps) / 10_000
}

/// The shares of a losing total `l`, each rounded down, computed in the order winners,
/// buyback, reserve, motherlode; the platform fee is taken from the winners' share.
pub open spec fn distribution_of(l: u64) -> Distribution {
    let ws = bps_of(l as int, WINNERS_BPS);
    Distribution {
        winners_share: ws as u64,
        buyback: bps_of(l as int, BUYBACK_BPS) as u64,
        reserve: bps_of(l as int, RESERVE_BPS) as u64,
        motherlode: bps_of(l as int, MOTHERLODE_BPS) as u64,
        platform_fee: bps_of(ws, PLATFORM_FEE_BPS) as u64,
        winners: (ws - bps_of(ws, PLATFORM_FEE_BPS)) as u64,
    }
}

/// `amount` times `bps` basis points, rounded down, for `bps` of at most 100%.
fn apply_bps(amount: u64, bps: u64) -> (r: u64)
    requires
        bps <= 10_000,
    ensures
        r == bps_of(amount as int, bps),
        r <= amount,
{
    proof {
        lemma_share_fits(amount as int, bps as int);
    }
    (amount as u128 * bps as u128 / 10_000) as u64
}

/// Everything the pools receive from a losing total.
pub open spec fn distributed_total(d: Distribution) -> int {
    d.winners + d.platform_fee + d.buyback + d.reserve + d.motherlode
}

/// Splits a losing total into its shares.
pub fn split_losing_total(losing: u64) -> (d: Distribution)
    ensures
        d == distribution_of(losing),
{
    let winners_share = apply_bps(losing, WINNERS_BPS);
    let buyback = apply_bps(losing, BUYBACK_BPS);
    let reserve = apply_bps(losing, RESERVE_BPS);
    let motherlode = apply_bps(losing, MOTHERLODE_BPS);
    let platform_fee = apply_bps(winners_share, PLATFORM_FEE_BPS);
    Distribution {
        winners_share,
        buyback,
        reserve,
        motherlode,
        platform_fee,
        winners: winners_share - platform_fee,
    }
}

proof fn lemma_share_fits(l: int, bps: int)
    requires
        0 <= l,
        0 <= bps <= 10_000,
    ensures
        0 <= (l * bps) / 10_000 <= l,
        l <= u64::MAX ==> l * bps <= u128::MAX,
{
    assert(0 <= (l * bps) / 10_000 <= l) by (nonlinear_arith)
        requires 0 <= l, 0 <= bps <= 10_000;
    if l <= u64::MAX {
        assert(l * bps <= u64::MAX * 10_000) by (nonlinear_arith)
            requires 0 <= l <= u64::MAX, 0 <= bps <= 10_000;
    }
}

/// The shares never exceed the losing total, and rounding loses at most three units.
pub proof fn lemma_split_conserves(losing: u64)
    ensures
        losing - 3 <= distributed_total(distribution_of(losing)) <= losing,
{
    let l = losing as int;
    let a = (l * 8800) / 10_000;
    let b = (l * 800) / 10_000;
    let c = (l * 200) / 10_000;
    assert(10_000 * a <= l * 8800 < 10_000 * a + 10_000) by (nonlinear_arith)
        requires a == (l * 8800) / 10_000, l >= 0;
    assert(10_000 * b <= l * 800 < 10_000 * b + 10_000) by (nonlinear_arith)
        requires b == (l * 800) / 10_000, l >= 0;
    assert(10_000 * c <= l * 200 < 10_000 * c + 10_000) by (nonlinear_arith)
        requires c == (l * 200) / 10_000, l >= 0;
    assert(0 <= (a * 100) / 10_000 <= a) by (nonlinear_arith)
        requires a >= 0;
}

/// What a rollover hands to the outside world: the next round, the event, and the value
/// transfers and mint to perform.
#[derive(Clone, Copy, Debug)]
pub struct ResetOutcome {
    /// The round to open next.
    pub next_round: Round,
    /// The event describing the rollover.
    pub event: ResetEvent,
    /// Currency to move from the treasury into the round for the mini-motherlode.
    pub mini_motherlode_transfer: u64,
    /// Tokens to mint to the treasury.
    pub mint_amount: u64,
    /// Currency to move from the round to the treasury.
    pub vault_transfer: u64,
    /// Currency to move from the round to the fee collector.
    pub platform_fee: u64,
}

/// Why a rollover is refused before any randomness is read, if it is.
pub open spec fn reset_precheck(
    board: Board,
    entropy: EntropySample,
    var_address: Address,
    config_var_address: Address,
    slot: u64,
) -> Option<AppError> {
    if slot < board.end_slot + INTERMISSION_SLOTS {
        Some(AppError::RoundNotStarted)
    } else if var_address.bytes@ != config_var_address.bytes@ {
        Some(AppError::InvalidEntropyVar)
    } else if !entropy.finalized() {
        Some(AppError::EntropyNotFinalized)
    } else {
        None
    }
}

/// Tokens to mint for a round: the scheduled emission, capped by what is left of the
/// maximum supply.
pub open spec fn mint_amount_of(supply: u64, reward: int) -> int {
    let left = if supply <= MAX_SUPPLY {
        MAX_SUPPLY - supply
    } else {
        0
    };
    if left <= reward {
        left
    } else {
        reward
    }
}

/// The board after a rollover at `slot` that pays out nothing: the next round, waiting for
/// its first deployment, and the token motherlode grown by its fixed increment.
pub open spec fn rolled_board(b: Board, slot: u64) -> Board {
    Board {
        round_id: (b.round_id + 1) as u64,
        start_slot: (slot + 1) as u64,
        end_slot: u64::MAX,
        motherlode_ruby: (b.motherlode_ruby + MOTHERLODE_INCREMENT) as u64,
        ..b
    }
}

/// Whether a rollover stays within range; `value` is the finalized outcome seed.
pub open spec fn rollover_fits(b: Board, r: Round, t: Treasury, value: [u8; 32], supply: u64, slot: u64) -> bool {
    let rng = rng_of(value@);
    let ws = winning_square_of(rng.unwrap());
    let d = distribution_of((r.total_deployed - r.deployed@[ws]) as u64);
    let mint = mint_amount_of(supply, scheduled_reward(b.mining_start_slot, slot));
    &&& b.round_id < u64::MAX
    &&& slot < u64::MAX
    &&& b.motherlode_ruby + MOTHERLODE_INCREMENT <= u64::MAX
    &&& rng is Some && r.deployed@[ws] == 0 ==> t.buyback_bl + r.total_deployed <= u64::MAX
    &&& rng is Some && r.deployed@[ws] != 0 ==> {
        &&& t.buyback_bl + d.buyback <= u64::MAX
        &&& t.reserve_bl + d.reserve <= u64::MAX
        &&& t.motherlode_sol_bl + d.motherlode <= u64::MAX
        &&& t.leaderboard_bl + d.reserve / 2 <= u64::MAX
        &&& b.mini_motherlode_sol + (d.reserve - d.reserve / 2) <= u64::MAX
        &&& b.total_minted + mint <= u64::MAX
    }
}

/// Resolves the current round at `slot` with the oracle's finalized value and opens the
/// next one.
///
/// Without a usable random value (an all-ones seed) the round is voided: its totals are
/// zeroed and nothing is minted. When nobody deployed on the winning square, everything
/// deployed goes to the buyback pool and nobody wins anything. Otherwise the losing squares
/// are split 88/8/2/2 (winners, buyback, reserve, motherlode pool), a 1% platform fee is
/// taken from the winners' share, the reserve is halved between the leaderboard and the
/// mini-motherlode, the round's emission is fixed, the split mode is drawn, and the token
/// motherlode is paid out when the draw hits it. In every case the token motherlode first
/// grows by its fixed increment and the board moves to the next round.
pub fn reset(
    board: &mut Board,
    current_round: &mut Round,
    treasury: &mut Treasury,
    entropy: &EntropySample,
    var_address: &Address,
    config_var_address: &Address,
    mint_supply: u64,
    slot: u64,
    now: i64,
    signer: &Address,
) -> (r: Result<ResetOutcome, AppError>)
    requires
        old(current_round).wf(),
    ensures
        factors_not_decreased(*old(treasury), *final(treasury)),
        r is Err ==> *final(board) == *old(board) && *final(current_round) == *old(current_round)
            && *final(treasury) == *old(treasury),
        reset_precheck(*old(board), *entropy, *var_address, *config_var_address, slot) matches Some(e)
            ==> r == Err::<ResetOutcome, AppError>(e),
        reset_precheck(*old(board), *entropy, *var_address, *config_var_address, slot) is None
            ==> ({
            let b = *old(board);
            let cr = *old(current_round);
            let t = *old(treasury);
            let value = entropy.value;
            let rng = rng_of(value@);
            let ws = winning_square_of(rng.unwrap());
            let losing = (cr.total_deployed - cr.deployed@[ws]) as u64;
            let d = distribution_of(losing);
            let mint = mint_amount_of(mint_supply, scheduled_reward(b.mining_start_slot, slot));
            let hit = motherlode_of(rng.unwrap());
            if !rollover_fits(b, cr, t, value, mint_supply, slot) {
                r == Err::<ResetOutcome, AppError>(AppError::Overflow)
            } else {
                &&& r is Ok
                &&& final(current_round).slot_hash == value
                &&& final(current_round).deployed == cr.deployed
                &&& final(current_round).count == cr.count
                &&& r->Ok_0.next_round.is_fresh((b.round_id + 1) as u64, *signer)
                &&& final(board).motherlode_ruby == (if rng is Some && cr.deployed@[ws] != 0
                    && hit {
                    0
                } else {
                    b.motherlode_ruby + MOTHERLODE_INCREMENT
                })
                &&& final(board).round_id == b.round_id + 1
                &&& final(board).start_slot == slot + 1
                &&& final(board).end_slot == u64::MAX
                &&& final(board).mining_start_slot == b.mining_start_slot
                &&& rng is None ==> {
                    &&& final(current_round).total_vaulted == 0
                    &&& final(current_round).total_winnings == 0
                    &&& final(current_round).total_deployed == 0
                    &&& *final(treasury) == t
                    &&& *final(board) == rolled_board(b, slot)
                    &&& r->Ok_0.mint_amount == 0 && r->Ok_0.vault_transfer == 0
                    &&& r->Ok_0.platform_fee == 0 && r->Ok_0.mini_motherlode_transfer == 0
                }
                &&& rng is Some && cr.deployed@[ws] == 0 ==> {
                    &&& final(current_round).total_vaulted == cr.total_deployed
                    &&& final(current_round).total_winnings == 0
                    &&& *final(treasury) == (Treasury {
                        buyback_bl: (t.buyback_bl + cr.total_deployed) as u64,
                        ..t
                    })
                    &&& *final(board) == rolled_board(b, slot)
                    &&& r->Ok_0.vault_transfer == cr.total_deployed
                    &&& r->Ok_0.mint_amount == 0 && r->Ok_0.platform_fee == 0
                    &&& r->Ok_0.mini_motherlode_transfer == 0
                }
                &&& rng is Some && cr.deployed@[ws] != 0 ==> {
                    &&& final(current_round).total_winnings == d.winners
                    &&& final(current_round).total_vaulted == d.buyback + d.reserve + d.motherlode
                    &&& final(current_round).total_stake_rewards == 0
                    &&& final(current_round).top_miner_reward == mint
                    &&& split_of(rng.unwrap()) ==> final(current_round).top_miner.bytes@
                        == split_bytes()
                    &&& !split_of(rng.unwrap()) ==> final(current_round).top_miner
                        == cr.top_miner
                    &&& final(current_round).motherlode == (if hit {
                        b.motherlode_ruby + MOTHERLODE_INCREMENT
                    } else {
                        cr.motherlode as int
                    })
                    &&& *final(treasury) == (Treasury {
                        buyback_bl: (t.buyback_bl + d.buyback) as u64,
                        reserve_bl: (t.reserve_bl + d.reserve) as u64,
                        motherlode_sol_bl: (t.motherlode_sol_bl + d.motherlode) as u64,
                        leaderboard_bl: (t.leaderboard_bl + d.reserve / 2) as u64,
                        ..t
                    })
                    &&& final(board).motherlode_ruby == (if hit {
                        0
                    } else {
                        b.motherlode_ruby + MOTHERLODE_INCREMENT
                    })
                    &&& final(board).mini_motherlode_sol == (if hit {
                        0
                    } else {
                        b.mini_motherlode_sol + (d.reserve - d.reserve / 2)
                    })
                    &&& r->Ok_0.mini_motherlode_transfer == (if hit {
                        b.mini_motherlode_sol + (d.reserve - d.reserve / 2)
                    } else {
                        0
                    })
                    &&& final(board).total_minted == b.total_minted + mint
                    &&& r->Ok_0.mint_amount == mint
                    &&& r->Ok_0.vault_transfer == d.buyback + d.reserve + d.motherlode
                    &&& r->Ok_0.platform_fee == d.platform_fee
                }
            }
        }),
{
    if slot < board.end_slot || slot - board.end_slot < INTERMISSION_SLOTS {
        return Err(AppError::RoundNotStarted);
    }
    if !var_address.same(config_var_address) {
        return Err(AppError::InvalidEntropyVar);
    }
    let value = match entropy.finalized_value() {
        Ok(v) => v,
        Err(e) => {
            return Err(e);
        },
    };
    if board.round_id == u64::MAX || slot == u64::MAX || board.motherlode_ruby > u64::MAX
        - MOTHERLODE_INCREMENT {
        return Err(AppError::Overflow);
    }
    let mut b = *board;
    // The token motherlode grows every round, whatever the outcome.
    b.motherlode_ruby = b.motherlode_ruby + MOTHERLODE_INCREMENT;
    let mut cr = *current_round;
    let mut t = *treasury;
    cr.slot_hash = value;
    let next_round = Round::fresh(b.round_id + 1, *signer);
    let mut event = ResetEvent {
        round_id: cr.id,
        start_slot: slot + 1,
        end_slot: u64::MAX,
        winning_square: u64::MAX,
        top_miner: Address::zero(),
        num_winners: 0,
        motherlode: 0,
        total_deployed: cr.total_deployed,
        total_vaulted: 0,
        total_winnings: 0,
        total_minted: 0,
        timestamp: now,
    };
    let mut outcome = ResetOutcome {
        next_round,
        event,
        mini_motherlode_transfer: 0,
        mint_amount: 0,
        vault_transfer: 0,
        platform_fee: 0,
    };
    let rng = match cr.rng() {
        Some(v) => v,
        None => {
            cr.total_vaulted = 0;
            cr.total_winnings = 0;
            cr.total_deployed = 0;
            outcome.event.total_deployed = 0;
            b.round_id = b.round_id + 1;
            b.start_slot = slot + 1;
            b.end_slot = u64::MAX;
            *board = b;
            *current_round = cr;
            return Ok(outcome);
        },
    };
    let winning_square = cr.winning_square(rng);
    outcome.event.winning_square = winning_square as u64;
    if cr.deployed[winning_square] == 0 {
        let total = cr.total_deployed;
        let buyback = match t.buyback_bl.checked_add(total) {
            Some(v) => v,
            None => {
                return Err(AppError::Overflow);
            },
        };
        cr.total_vaulted = total;
        cr.total_winnings = 0;
        t.buyback_bl = buyback;
        outcome.vault_transfer = total;
        outcome.event.total_vaulted = total;
        b.round_id = b.round_id + 1;
        b.start_slot = slot + 1;
        b.end_slot = u64::MAX;
        *board = b;
        *current_round = cr;
        *treasury = t;
        return Ok(outcome);
    }
    let losing = cr.calculate_total_winnings(winning_square);
    let d = split_losing_total(losing);
    cr.total_winnings = d.winners;
    cr.total_vaulted = d.buyback + d.reserve + d.motherlode;
    cr.total_stake_rewards = 0;
    t.buyback_bl = match t.buyback_bl.checked_add(d.buyback) {
        Some(v) => v,
        None => {
            return Err(AppError::Overflow);
        },
    };
    t.reserve_bl = match t.reserve_bl.checked_add(d.reserve) {
        Some(v) => v,
        None => {
            return Err(AppError::Overflow);
        },
    };
    t.motherlode_sol_bl = match t.motherlode_sol_bl.checked_add(d.motherlode) {
        Some(v) => v,
        None => {
            return Err(AppError::Overflow);
        },
    };
    let leaderboard_share = d.reserve / 2;
    t.leaderboard_bl = match t.leaderboard_bl.checked_add(leaderboard_share) {
        Some(v) => v,
        None => {
            return Err(AppError::Overflow);
        },
    };
    b.mini_motherlode_sol = match b.mini_motherlode_sol.checked_add(d.reserve - leaderboard_share) {
        Some(v) => v,
        None => {
            return Err(AppError::Overflow);
        },
    };
    let reward = b.current_reward(slot);
    let left = MAX_SUPPLY.saturating_sub(mint_supply);
    let mint_amount = if left <= reward {
        left
    } else {
        reward
    };
    cr.top_miner_reward = mint_amount;
    if cr.is_split_reward(rng) {
        cr.top_miner = Address::split();
    }
    if cr.did_hit_motherlode(rng) {
        cr.motherlode = b.motherlode_ruby;
        b.motherlode_ruby = 0;
        if b.mini_motherlode_sol > 0 {
            outcome.mini_motherlode_transfer = b.mini_motherlode_sol;
            b.mini_motherlode_sol = 0;
        }
    }
    b.total_minted = match b.total_minted.checked_add(mint_amount) {
        Some(v) => v,
        None => {
            return Err(AppError::Overflow);
        },
    };
    b.round_id = b.round_id + 1;
    b.start_slot = slot + 1;
    b.end_slot = u64::MAX;
    outcome.mint_amount = mint_amount;
    outcome.vault_transfer = cr.total_vaulted;
    outcome.platform_fee = d.platform_fee;
    outcome.event.top_miner = cr.top_miner;
    outcome.event.num_winners = cr.count[winning_square];
    outcome.event.motherlode = cr.motherlode;
    outcome.event.total_vaulted = cr.total_vaulted;
    outcome.event.total_winnings = cr.total_winnings;
    outcome.event.total_minted = mint_amount;
    *board = b;
    *current_round = cr;
    *treasury = t;
    Ok(outcome)
}

/// Minting never carries the supply past the maximum: after minting what a rollover asks
/// for, the supply is at most the larger of the maximum and what it was.
pub proof fn lemma_mint_within_supply(supply: u64, reward: int)
    requires
        reward >= 0,
    ensures
        0 <= mint_amount_of(supply, reward) <= reward,
        supply <= MAX_SUPPLY ==> supply + mint_amount_of(supply, reward) <= MAX_SUPPLY,
        supply > MAX_SUPPLY ==> mint_amount_of(supply, reward) == 0,
{
}

} // verus!
