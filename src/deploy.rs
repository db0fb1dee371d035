use vstd::prelude::*;

use crate::address::{zero_bytes, Address};
use crate::automation::{automation_squares_of, Automation};
use crate::board::Board;
use crate::constants::{CHECKPOINT_FEE, DEPLOYMENT_WINDOW_SLOTS, MIN_DEPLOYMENT, ONE_DAY_SLOTS};
use crate::entropy::{var_data_finalized, var_data_finalized_spec};
use crate::errors::AppError;
use crate::events::DeployEvent;
use crate::ledger::{lemma_sum_bounds_entry, lemma_sum_update, lemma_sum_zeros, sum};
use crate::miner::Miner;
use crate::round::{zeros25, Round};

verus! {

/// What a deployment reads from its surroundings.
#[derive(Clone, Copy, Debug)]
pub struct DeployContext {
    /// The current slot.
    pub slot: u64,
    /// The current time.
    pub now: i64,
    /// Who signs the deployment: the participant, or the executor of its automation.
    pub signer: Address,
    /// The participant the deployment is for.
    pub authority: Address,
    /// The oracle variable passed in.
    pub var_address: Address,
    /// The oracle variable the configuration names.
    pub config_var_address: Address,
}

/// What a deployment asks of the outside world.
#[derive(Clone, Copy, Debug)]
pub struct DeployOutcome {
    /// Currency deployed on each square.
    pub amount: u64,
    /// Currency deployed in all, to move into the round's record.
    pub total_deployed: u64,
    /// Checkpoint fee to move from the signer into the miner's record.
    pub checkpoint_fee: u64,
    /// When the window just opened and the oracle variable is finalized: the end slot for
    /// which the variable is to be reused.
    pub entropy_next: Option<u64>,
    /// The executor's fee, paid from the automation.
    pub executor_fee: u64,
    /// Whether the automation can no longer pay for a deployment and is to be closed.
    pub close_automation: bool,
    /// The event describing the deployment.
    pub event: DeployEvent,
}

/// Whether bit `i` of a 32-bit mask is set.
pub open spec fn bit_set32(mask: u32, i: int) -> bool {
    mask & (1u32 << (i as u32)) != 0
}

/// Whether this deployment opens the round's window.
pub open spec fn opens_window(b: Board) -> bool {
    b.end_slot == u64::MAX
}

/// Whether the round's record was just created and is initialized by this deployment.
pub open spec fn initializes_round(b: Board, r: Round) -> bool {
    opens_window(b) && r.id == 0 && r.total_deployed == 0
}

/// The id of the round deployed in.
pub open spec fn round_id_at(b: Board, r: Round) -> u64 {
    if initializes_round(b, r) {
        b.round_id
    } else {
        r.id
    }
}

/// Who the deployment is for.
pub open spec fn owner_of(a: Option<Automation>, ctx: DeployContext) -> Address {
    match a {
        Some(a) => a.authority,
        None => ctx.signer,
    }
}

/// The amount per square.
pub open spec fn amount_of(a: Option<Automation>, amount: u64) -> u64 {
    match a {
        Some(a) => a.amount,
        None => amount,
    }
}

/// The executor's fee and the automation's balance, for an automated deployment.
pub open spec fn budget_of(a: Option<Automation>) -> Option<(u64, u64)> {
    match a {
        Some(a) => Some((a.fee, a.balance)),
        None => None,
    }
}

/// The squares selected.
pub open spec fn selection_of(a: Option<Automation>, squares: u32, rid: u64) -> Seq<bool> {
    Seq::new(
        25,
        |i: int|
            match a {
                Some(a) => automation_squares_of(a, rid, i),
                None => bit_set32(squares, i),
            },
    )
}

/// Whether the miner starts the round afresh (it is new, or played another round).
pub open spec fn starts_over(m: Miner, rid: u64) -> bool {
    m.authority.bytes@ == zero_bytes() || m.round_id != rid
}

/// What the miner had deployed on each square before this deployment.
pub open spec fn prior_deployed(m: Miner, rid: u64) -> Seq<u64> {
    if starts_over(m, rid) {
        zeros25()
    } else {
        m.deployed@
    }
}

/// Whether an automation's balance cannot pay for one more square after `t` together with
/// the executor's fee.
pub open spec fn over_budget(t: int, amount: u64, budget: Option<(u64, u64)>) -> bool {
    match budget {
        Some((fee, balance)) => t + fee + amount > balance,
        None => false,
    }
}

/// What the miner's snapshots of the round were before this deployment: a miner starting
/// the round afresh takes the round's deposits as they stand (a new miner joining round zero
/// starts from zeros).
pub open spec fn prior_cumulative(m: Miner, r: Round, rid: u64) -> Seq<u64> {
    if m.authority.bytes@ == zero_bytes() {
        if rid == 0 {
            zeros25()
        } else {
            r.deployed@
        }
    } else if m.round_id != rid {
        r.deployed@
    } else {
        m.cumulative@
    }
}

/// The running total after the first `i` squares, and whether the automation's balance ran
/// out on the way. A square is taken when selected, not yet staked by the miner, and, for an
/// automation, affordable together with the executor's fee; the first unaffordable square
/// ends the deployment.
pub open spec fn plan(sel: Seq<bool>, prior: Seq<u64>, amount: u64, budget: Option<(u64, u64)>, i: int) -> (int, bool)
    decreases i,
{
    if i <= 0 {
        (0, false)
    } else {
        let (t, stopped) = plan(sel, prior, amount, budget, i - 1);
        if stopped || !sel[i - 1] || prior[i - 1] > 0 {
            (t, stopped)
        } else if over_budget(t, amount, budget) {
            (t, true)
        } else {
            (t + amount, false)
        }
    }
}

/// Whether square `i` is taken.
pub open spec fn takes(sel: Seq<bool>, prior: Seq<u64>, amount: u64, budget: Option<(u64, u64)>, i: int) -> bool {
    let (t, stopped) = plan(sel, prior, amount, budget, i);
    &&& !stopped
    &&& sel[i]
    &&& prior[i] == 0
    &&& !over_budget(t, amount, budget)
}

pub proof fn lemma_plan_step(sel: Seq<bool>, prior: Seq<u64>, amount: u64, budget: Option<(u64, u64)>, i: int)
    requires
        0 <= i,
    ensures
        plan(sel, prior, amount, budget, i + 1).0 == plan(sel, prior, amount, budget, i).0 + (
        if takes(sel, prior, amount, budget, i) {
            amount as int
        } else {
            0
        }),
        plan(sel, prior, amount, budget, i).0 >= 0,
    decreases i,
{
    if i > 0 {
        lemma_plan_step(sel, prior, amount, budget, i - 1);
    }
}

pub proof fn lemma_plan_monotone(sel: Seq<bool>, prior: Seq<u64>, amount: u64, budget: Option<(u64, u64)>, i: int, k: int)
    requires
        0 <= i <= k,
    ensures
        plan(sel, prior, amount, budget, i).0 <= plan(sel, prior, amount, budget, k).0,
    decreases k - i,
{
    if i < k {
        lemma_plan_monotone(sel, prior, amount, budget, i + 1, k);
        lemma_plan_step(sel, prior, amount, budget, i);
    }
}

/// The depositor counts of the round before this deployment.
pub open spec fn start_count(b: Board, r: Round) -> Seq<u64> {
    if initializes_round(b, r) {
        zeros25()
    } else {
        r.count@
    }
}

/// Why a deployment is refused, if it is, in the order the checks are made.
pub open spec fn deploy_error(b: Board, r: Round, m: Miner, a: Option<Automation>, ctx: DeployContext, amount: u64, squares: u32) -> Option<AppError> {
    let rid = round_id_at(b, r);
    let owner = owner_of(a, ctx);
    let amt = amount_of(a, amount);
    let sel = selection_of(a, squares, rid);
    let prior = prior_deployed(m, rid);
    let total = plan(sel, prior, amt, budget_of(a), 25).0;
    let count0 = start_count(b, r);
    if opens_window(b) && ctx.slot + DEPLOYMENT_WINDOW_SLOTS + ONE_DAY_SLOTS > u64::MAX {
        Some(AppError::Overflow)
    } else if opens_window(b) && ctx.config_var_address.bytes@ == zero_bytes() {
        Some(AppError::EntropyNotConfigured)
    } else if opens_window(b) && ctx.var_address.bytes@ != ctx.config_var_address.bytes@ {
        Some(AppError::InvalidEntropyVar)
    } else if !opens_window(b) && !(b.start_slot <= ctx.slot < b.end_slot) {
        Some(AppError::RoundEnded)
    } else if a is Some && (a->0.executor.bytes@ != ctx.signer.bytes@ || a->0.authority.bytes@
        != ctx.authority.bytes@) {
        Some(AppError::NotAuthorized)
    } else if m.authority.bytes@ != zero_bytes() && m.authority.bytes@ != owner.bytes@ {
        Some(AppError::NotAuthorized)
    } else if m.authority.bytes@ != zero_bytes() && m.round_id != rid && m.checkpoint_id
        != m.round_id {
        Some(AppError::MustCheckpoint)
    } else if amt < MIN_DEPLOYMENT {
        Some(AppError::AmountTooSmall)
    } else if r.total_deployed + total > u64::MAX || exists|i: int|
        0 <= i < 25 && #[trigger] takes(sel, prior, amt, budget_of(a), i) && count0[i] == u64::MAX {
        Some(AppError::Overflow)
    } else if a is Some && a->0.balance < total + a->0.fee {
        Some(AppError::InsufficientBalance)
    } else {
        None
    }
}

/// The squares selected, as an array.
fn select_squares(automation: &Option<Automation>, squares: u32, round_id: u64) -> (r: [bool; 25])
    ensures
        r@ == selection_of(*automation, squares, round_id),
{
    let r = match automation {
        Some(a) => a.squares(round_id),
        None => {
            let mut sel = [false; 25];
            let mut i: usize = 0;
            while i < 25
                invariant
                    i <= 25,
                    forall|j: int| 0 <= j < i ==> sel@[j] == bit_set32(squares, j),
                decreases 25 - i,
            {
                sel[i] = squares & (1u32 << (i as u32)) != 0;
                i = i + 1;
            }
            sel
        },
    };
    assert(r@ =~= selection_of(*automation, squares, round_id));
    r
}

/// Deploys currency on squares of the current round for a participant, by the participant
/// or by the executor of its automation.
///
/// The first deployment after a rollover opens the deployment window at the current slot
/// and sets the round's claim deadline a day after the window; it also asks the oracle to
/// reuse its variable when that variable is finalized. Deployments outside the window are
/// refused. A participant that played an earlier round must have settled it. Each selected
/// square the participant has not staked yet this round receives the amount: the miner
/// records the round's deposits on that square just before its own, and the round's
/// deposits and depositor count grow. An automated deployment stops at the first square its
/// balance cannot pay for together with the executor's fee. A refused deployment changes
/// nothing.
pub fn deploy(
    board: &mut Board,
    round: &mut Round,
    miner: &mut Miner,
    automation: &mut Option<Automation>,
    ctx: &DeployContext,
    var_data: &[u8],
    amount: u64,
    squares: u32,
) -> (r: Result<DeployOutcome, AppError>)
    requires
        old(round).wf(),
    ensures
        final(round).wf(),
        ({
            let b = *old(board);
            let r0 = *old(round);
            let m = *old(miner);
            let a = *old(automation);
            let rid = round_id_at(b, r0);
            let amt = amount_of(a, amount);
            let sel = selection_of(a, squares, rid);
            let prior = prior_deployed(m, rid);
            let budget = budget_of(a);
            let total = plan(sel, prior, amt, budget, 25).0;
            let count0 = start_count(b, r0);
            match deploy_error(b, r0, m, a, *ctx, amount, squares) {
                Some(e) => {
                    &&& r == Err::<DeployOutcome, AppError>(e)
                    &&& *final(board) == b
                    &&& *final(round) == r0
                    &&& *final(miner) == m
                    &&& *final(automation) == a
                },
                None => {
                    &&& r is Ok
                    &&& r->Ok_0.amount == amt
                    &&& r->Ok_0.total_deployed == total
                    &&& final(round).id == rid
                    &&& final(round).total_deployed == r0.total_deployed + total
                    &&& sum(final(round).deployed@) == sum(r0.deployed@) + total
                    &&& sum(final(miner).deployed@) == sum(prior) + total
                    &&& deposit_effect(
                        r0.total_deployed as int,
                        r0.deployed@,
                        count0,
                        *final(round),
                        prior,
                        final(miner).deployed@,
                    )
                    &&& forall|i: int|
                        0 <= i < 25 ==> {
                            &&& final(round).deployed@[i] == r0.deployed@[i] + (if takes(
                                sel,
                                prior,
                                amt,
                                budget,
                                i,
                            ) {
                                amt as int
                            } else {
                                0
                            })
                            &&& final(round).count@[i] == count0[i] + (if takes(
                                sel,
                                prior,
                                amt,
                                budget,
                                i,
                            ) {
                                1int
                            } else {
                                0
                            })
                            &&& final(miner).deployed@[i] == (if takes(sel, prior, amt, budget, i) {
                                amt
                            } else {
                                prior[i]
                            })
                            &&& takes(sel, prior, amt, budget, i) ==> final(miner).cumulative@[i]
                                == r0.deployed@[i]
                            &&& !takes(sel, prior, amt, budget, i) ==> final(miner).cumulative@[i]
                                == prior_cumulative(m, r0, rid)[i]
                        }
                    &&& final(miner).round_id == rid
                    &&& final(miner).authority.bytes@ == owner_of(a, *ctx).bytes@
                    &&& final(miner).checkpoint_fee != 0
                    &&& r->Ok_0.checkpoint_fee == (if m.authority.bytes@ == zero_bytes()
                        || m.checkpoint_fee == 0 {
                        CHECKPOINT_FEE
                    } else {
                        0
                    })
                    &&& opens_window(b) ==> {
                        &&& final(board).start_slot == ctx.slot
                        &&& final(board).end_slot == ctx.slot + DEPLOYMENT_WINDOW_SLOTS
                        &&& final(round).expires_at == ctx.slot + DEPLOYMENT_WINDOW_SLOTS
                            + ONE_DAY_SLOTS
                        &&& r->Ok_0.entropy_next == (if var_data_finalized_spec(var_data@) {
                            Some((ctx.slot + DEPLOYMENT_WINDOW_SLOTS + 10) as u64)
                        } else {
                            None::<u64>
                        })
                    }
                    &&& !opens_window(b) ==> *final(board) == b && r->Ok_0.entropy_next is None
                    &&& !opens_window(b) ==> *final(round) == (Round {
                        deployed: final(round).deployed,
                        count: final(round).count,
                        total_deployed: final(round).total_deployed,
                        ..r0
                    })
                    &&& m.authority.bytes@ != zero_bytes() ==> *final(miner) == (Miner {
                        deployed: final(miner).deployed,
                        cumulative: final(miner).cumulative,
                        round_id: final(miner).round_id,
                        checkpoint_fee: final(miner).checkpoint_fee,
                        authority: final(miner).authority,
                        ..m
                    })
                    &&& a is None ==> *final(automation) == a
                    &&& a is Some ==> {
                        &&& (*final(automation)) is Some
                        &&& (*final(automation))->0.balance == a->0.balance - (total + a->0.fee)
                        &&& r->Ok_0.executor_fee == a->0.fee
                        &&& r->Ok_0.close_automation == ((*final(automation))->0.balance
                            < a->0.amount + a->0.fee)
                    }
                },
            }
        }),
{
    let ghost r_start = *round;
    let mut b = *board;
    let mut rd = *round;
    let mut entropy_next: Option<u64> = None;
    if b.end_slot == u64::MAX {
        if ctx.slot > u64::MAX - DEPLOYMENT_WINDOW_SLOTS - ONE_DAY_SLOTS {
            return Err(AppError::Overflow);
        }
        if rd.id == 0 && rd.total_deployed == 0 {
            proof {
                lemma_sum_zero_entries(rd.deployed@);
            }
            rd = Round::fresh(b.round_id, ctx.signer);
            assert(rd.deployed@ =~= r_start.deployed@);
        }
        b.start_slot = ctx.slot;
        b.end_slot = ctx.slot + DEPLOYMENT_WINDOW_SLOTS;
        rd.expires_at = b.end_slot + ONE_DAY_SLOTS;
        if ctx.config_var_address.is_zero() {
            return Err(AppError::EntropyNotConfigured);
        }
        if !ctx.var_address.same(&ctx.config_var_address) {
            return Err(AppError::InvalidEntropyVar);
        }
        if var_data_finalized(var_data) {
            entropy_next = Some(b.end_slot + 10);
        }
    }
    if !(ctx.slot >= b.start_slot && ctx.slot < b.end_slot) {
        return Err(AppError::RoundEnded);
    }
    match automation {
        Some(a) => {
            if !a.executor.same(&ctx.signer) || !a.authority.same(&ctx.authority) {
                return Err(AppError::NotAuthorized);
            }
        },
        None => {},
    }
    let owner = match automation {
        Some(a) => a.authority,
        None => ctx.signer,
    };
    let mut m = *miner;
    if m.authority.is_zero() {
        m = Miner::new(owner);
    }
    if !m.authority.same(&owner) {
        return Err(AppError::NotAuthorized);
    }
    if m.round_id != rd.id {
        if m.checkpoint_id != m.round_id {
            return Err(AppError::MustCheckpoint);
        }
        m.deployed = [0u64; 25];
        m.cumulative = rd.deployed;
        m.round_id = rd.id;
    }
    let amt = match automation {
        Some(a) => a.amount,
        None => amount,
    };
    if amt < MIN_DEPLOYMENT {
        return Err(AppError::AmountTooSmall);
    }
    let sel = select_squares(automation, squares, rd.id);
    let (fee, balance, limited) = match automation {
        Some(a) => (a.fee, a.balance, true),
        None => (0, 0, false),
    };
    let ghost prior = m.deployed@;
    let ghost budget = budget_of(*automation);
    proof {
        assert(prior =~= prior_deployed(*miner, rd.id));
        assert(rd.deployed@ == r_start.deployed@);
        assert(m.cumulative@ =~= prior_cumulative(*miner, r_start, rd.id));
    }
    // First pass: what the deployment will take, and whether it fits.
    let mut planned: u128 = 0;
    let mut stopped = false;
    let mut count_full = false;
    let mut i: usize = 0;
    while i < 25
        invariant
            i <= 25,
            (planned as int, stopped) == plan(sel@, prior, amt, budget, i as int),
            planned <= i * (u64::MAX as int),
            budget == (if limited { Some((fee, balance)) } else { None::<(u64, u64)> }),
            prior == m.deployed@,
            count_full == exists|j: int|
                0 <= j < i && takes(sel@, prior, amt, budget, j) && rd.count@[j] == u64::MAX,
        decreases 25 - i,
    {
        proof {
            lemma_plan_step(sel@, prior, amt, budget, i as int);
        }
        if !stopped && sel[i] && m.deployed[i] == 0 {
            if limited && planned + fee as u128 + amt as u128 > balance as u128 {
                stopped = true;
            } else {
                if rd.count[i] == u64::MAX {
                    count_full = true;
                }
                planned = planned + amt as u128;
            }
        }
        proof {
            assert(count_full == exists|j: int|
                0 <= j < i + 1 && takes(sel@, prior, amt, budget, j) && rd.count@[j] == u64::MAX) by {
                if exists|j: int| 0 <= j < i + 1 && takes(sel@, prior, amt, budget, j) && rd.count@[j] == u64::MAX {
                    let j = choose|j: int| 0 <= j < i + 1 && takes(sel@, prior, amt, budget, j) && rd.count@[j] == u64::MAX;
                    if j < i {
                    } else {
                        assert(j == i);
                    }
                }
            }
        }
        i = i + 1;
    }
    proof {
        let rid = round_id_at(*old(board), r_start);
        assert(rid == rd.id);
        assert(sel@ == selection_of(*automation, squares, rid));
        assert(prior == prior_deployed(*old(miner), rid));
        assert(amt == amount_of(*automation, amount));
        assert(rd.count@ == start_count(*old(board), r_start));
        assert(rd.total_deployed == r_start.total_deployed);
        if count_full {
            let j = choose|j: int|
                0 <= j < 25 && takes(sel@, prior, amt, budget, j) && rd.count@[j] == u64::MAX;
            assert(0 <= j < 25 && takes(sel@, prior, amt, budget, j) && rd.count@[j] == u64::MAX);
        }
    }
    if planned > (u64::MAX - rd.total_deployed) as u128 || count_full {
        return Err(AppError::Overflow);
    }
    let total = planned as u64;
    if limited && (balance as u128) < (total as u128) + (fee as u128) {
        return Err(AppError::InsufficientBalance);
    }
    // Second pass: record the deposits.
    let ghost r0 = rd;
    let ghost m0 = m;
    let mut done: u64 = 0;
    let mut halted = false;
    let mut k: usize = 0;
    while k < 25
        invariant
            k <= 25,
            r0.wf(),
            r0.total_deployed + total <= u64::MAX,
            total == plan(sel@, prior, amt, budget, 25).0,
            (done as int, halted) == plan(sel@, prior, amt, budget, k as int),
            budget == (if limited { Some((fee, balance)) } else { None::<(u64, u64)> }),
            prior == m0.deployed@,
            forall|j: int| 0 <= j < 25 && takes(sel@, prior, amt, budget, j) ==> r0.count@[j] < u64::MAX,
            sum(rd.deployed@) == sum(r0.deployed@) + done,
            sum(m.deployed@) == sum(prior) + done,
            rd == (Round { deployed: rd.deployed, count: rd.count, ..r0 }),
            m == (Miner { deployed: m.deployed, cumulative: m.cumulative, ..m0 }),
            forall|j: int|
                0 <= j < k ==> {
                    &&& rd.deployed@[j] == r0.deployed@[j] + (if takes(sel@, prior, amt, budget, j) {
                        amt as int
                    } else {
                        0
                    })
                    &&& rd.count@[j] == r0.count@[j] + (if takes(sel@, prior, amt, budget, j) {
                        1int
                    } else {
                        0
                    })
                    &&& m.deployed@[j] == (if takes(sel@, prior, amt, budget, j) {
                        amt
                    } else {
                        prior[j]
                    })
                    &&& takes(sel@, prior, amt, budget, j) ==> m.cumulative@[j] == r0.deployed@[j]
                },
            forall|j: int| k <= j < 25 ==> rd.deployed@[j] == r0.deployed@[j],
            forall|j: int| k <= j < 25 ==> rd.count@[j] == r0.count@[j],
            forall|j: int| k <= j < 25 ==> m.deployed@[j] == prior[j],
            forall|j: int|
                0 <= j < 25 && (k <= j || !takes(sel@, prior, amt, budget, j))
                    ==> m.cumulative@[j] == m0.cumulative@[j],
        decreases 25 - k,
    {
        proof {
            lemma_plan_step(sel@, prior, amt, budget, k as int);
            lemma_plan_monotone(sel@, prior, amt, budget, k as int + 1, 25);
        }
        if !halted && sel[k] && m.deployed[k] == 0 {
            if limited && done as u128 + fee as u128 + amt as u128 > balance as u128 {
                halted = true;
            } else {
                proof {
                    lemma_sum_bounds_entry(rd.deployed@, k as int);
                    lemma_sum_update(rd.deployed@, k as int, (rd.deployed@[k as int] + amt) as u64);
                    lemma_sum_update(m.deployed@, k as int, amt);
                }
                m.cumulative[k] = rd.deployed[k];
                m.deployed[k] = amt;
                rd.deployed[k] = rd.deployed[k] + amt;
                rd.count[k] = rd.count[k] + 1;
                done = done + amt;
            }
        }
        k = k + 1;
    }
    rd.total_deployed = rd.total_deployed + total;
    let mut fee_due: u64 = 0;
    if m.checkpoint_fee == 0 {
        m.checkpoint_fee = CHECKPOINT_FEE;
        fee_due = CHECKPOINT_FEE;
    }
    let mut executor_fee: u64 = 0;
    let mut close_automation = false;
    match automation {
        Some(a) => {
            a.balance = a.balance - (total + a.fee);
            executor_fee = a.fee;
            close_automation = (a.balance as u128) < (a.amount as u128) + (a.fee as u128);
        },
        None => {},
    }
    let event = DeployEvent {
        authority: ctx.authority,
        round_id: rd.id,
        amount: amt,
        squares,
        total_deployed: rd.total_deployed,
        timestamp: ctx.now,
    };
    *board = b;
    *round = rd;
    *miner = m;
    Ok(
        DeployOutcome {
            amount: amt,
            total_deployed: total,
            checkpoint_fee: fee_due,
            entropy_next,
            executor_fee,
            close_automation,
            event,
        },
    )
}

/// What one deployment does to a round that held `total0`, `deployed0` and `count0` and
/// ends as `r1`, and to the deposits of the miner that made it (`before` to `after`): the
/// round's deposits and total grow by what the miner added; a square the miner had already
/// staked keeps its deposit; and a square's depositor count grows by one exactly when the
/// miner stakes it for the first time.
pub open spec fn deposit_effect(
    total0: int,
    deployed0: Seq<u64>,
    count0: Seq<u64>,
    r1: Round,
    before: Seq<u64>,
    after: Seq<u64>,
) -> bool {
    &&& before.len() == 25 && after.len() == 25
    &&& r1.total_deployed - total0 == sum(after) - sum(before)
    &&& sum(r1.deployed@) - sum(deployed0) == sum(after) - sum(before)
    &&& forall|i: int| 0 <= i < 25 && before[i] > 0 ==> after[i] == before[i]
    &&& forall|i: int|
        0 <= i < 25 ==> r1.count@[i] == count0[i] + (if before[i] == 0 && after[i] > 0 {
            1int
        } else {
            0
        })
}

/// The deposits of all miners of a round, added up.
pub open spec fn miners_total(ms: Seq<Seq<u64>>) -> int
    decreases ms.len(),
{
    if ms.len() == 0 {
        0
    } else {
        miners_total(ms.drop_last()) + sum(ms.last())
    }
}

/// How many miners of a round have a deposit on square `sq`.
pub open spec fn miners_on(ms: Seq<Seq<u64>>, sq: int) -> int
    decreases ms.len(),
{
    if ms.len() == 0 {
        0
    } else {
        miners_on(ms.drop_last(), sq) + if ms.last()[sq] > 0 {
            1int
        } else {
            0
        }
    }
}

/// A round agrees with the deposits of its miners: its total is the sum of its squares and
/// the sum of all miners' deposits, and each square's depositor count is the number of
/// miners staked on it.
pub open spec fn balanced(r: Round, ms: Seq<Seq<u64>>) -> bool {
    &&& sum(r.deployed@) == r.total_deployed
    &&& r.total_deployed == miners_total(ms)
    &&& forall|sq: int| 0 <= sq < 25 ==> r.count@[sq] == miners_on(ms, sq)
}

proof fn lemma_miners_update(ms: Seq<Seq<u64>>, i: int, after: Seq<u64>, sq: int)
    requires
        0 <= i < ms.len(),
    ensures
        miners_total(ms.update(i, after)) == miners_total(ms) - sum(ms[i]) + sum(after),
        miners_on(ms.update(i, after), sq) == miners_on(ms, sq) - (if ms[i][sq] > 0 {
            1int
        } else {
            0
        }) + (if after[sq] > 0 {
            1int
        } else {
            0
        }),
    decreases ms.len(),
{
    let t = ms.update(i, after);
    if i == ms.len() - 1 {
        assert(t.drop_last() =~= ms.drop_last());
    } else {
        lemma_miners_update(ms.drop_last(), i, after, sq);
        assert(t.drop_last() =~= ms.drop_last().update(i, after));
    }
}

proof fn lemma_miners_zero(ms: Seq<Seq<u64>>, sq: int)
    requires
        forall|m: int| 0 <= m < ms.len() ==> ms[m] == zeros25(),
        0 <= sq < 25,
    ensures
        miners_total(ms) == 0,
        miners_on(ms, sq) == 0,
    decreases ms.len(),
{
    if ms.len() > 0 {
        lemma_miners_zero(ms.drop_last(), sq);
        lemma_sum_zeros(25);
    }
}

/// A fresh round agrees with miners that have deposited nothing yet.
pub proof fn lemma_fresh_round_balanced(r: Round, id: u64, payer: Address, ms: Seq<Seq<u64>>)
    requires
        r.is_fresh(id, payer),
        forall|m: int| 0 <= m < ms.len() ==> ms[m] == zeros25(),
    ensures
        balanced(r, ms),
{
    lemma_sum_zeros(25);
    assert forall|sq: int| 0 <= sq < 25 implies r.count@[sq] == miners_on(ms, sq) by {
        lemma_miners_zero(ms, sq);
    }
    lemma_miners_zero(ms, 0);
}

/// Deposits keep a round in agreement with its miners: whatever sequence of deployments
/// the miners of a round make, in any order, the round's total stays the sum of its squares
/// and of all miners' deposits, and each square's count stays the number of miners on it.
pub proof fn lemma_deposit_keeps_balance(r0: Round, r1: Round, ms: Seq<Seq<u64>>, i: int, after: Seq<u64>)
    requires
        balanced(r0, ms),
        0 <= i < ms.len(),
        deposit_effect(r0.total_deployed as int, r0.deployed@, r0.count@, r1, ms[i], after),
    ensures
        balanced(r1, ms.update(i, after)),
{
    lemma_miners_update(ms, i, after, 0);
    assert forall|sq: int| 0 <= sq < 25 implies r1.count@[sq] == miners_on(ms.update(i, after), sq) by {
        lemma_miners_update(ms, i, after, sq);
    }
}

/// Entries of a sequence that sums to zero are all zero.
pub proof fn lemma_sum_zero_entries(s: Seq<u64>)
    requires
        sum(s) == 0,
    ensures
        forall|i: int| 0 <= i < s.len() ==> s[i] == 0,
{
    assert forall|i: int| 0 <= i < s.len() implies s[i] == 0 by {
        lemma_sum_bounds_entry(s, i);
    }
}

} // verus!
