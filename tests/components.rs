use ruby_program::address::Address;
use ruby_program::automation::{
    automate, cancel_automate, generate_random_mask, le_bytes, mask_squares, random_squares,
    AutomateArgs, AutomateOutcome, Automation, AutomationStrategy,
};
use ruby_program::board::Board;
use ruby_program::config::{new_var_end_at, Config, SetAdminArgs, SetBufferArgs};
use ruby_program::deploy::{deploy, DeployContext};
use ruby_program::entropy::{next_instruction_data, open_instruction_data, var_data_finalized};
use ruby_program::errors::AppError;
use ruby_program::ledger::settle;
use ruby_program::miner::Miner;
use ruby_program::numeric::Numeric;
use ruby_program::referral::{claim_referral_rewards, split_referral_fee, Referral};
use ruby_program::reset::split_losing_total;
use ruby_program::round::{reverse_bits, Round};
use ruby_program::safety::{check_swap_result, check_transfer_safe, SwapSnapshot};
use ruby_program::stake::{stake_claim, stake_deposit, stake_withdraw, Stake};
use ruby_program::treasury::Treasury;

fn addr(b: u8) -> Address {
    Address::new([b; 32])
}

const DAY: u64 = 216_000;
const TOKEN: u64 = 1_000_000_000;

#[test]
fn numeric_conversions() {
    assert_eq!(Numeric::from_u64(7).raw(), 7_000_000_000_000);
    assert_eq!(Numeric::from_fraction(1, 3).raw(), 333_333_333_333);
    assert_eq!(Numeric::from_fraction(5, 0).raw(), 0);
    assert_eq!(Numeric::from_raw(2_500_000_000_000).to_u64(), 2);
    assert_eq!(Numeric::from_raw(-1).checked_to_u64(), None);
    assert_eq!(Numeric::one().raw(), 1_000_000_000_000);
}

#[test]
fn numeric_multiplication_is_wide() {
    let a = Numeric::from_u64(3_000_000_000);
    let b = Numeric::from_u64(4_000_000_000);
    // The raw product, 1.2e43, does not fit in 128 bits; the rescaled one does.
    assert_eq!(a.checked_mul(b).unwrap().raw(), 12_000_000_000_000_000_000_000_000_000_000);
    assert_eq!(Numeric::from_fraction(1, 2).mul(Numeric::from_fraction(1, 3)).raw(), 166_666_666_666);
    assert_eq!(Numeric::from_raw(-1_500_000_000_000).mul(Numeric::from_u64(3)).raw(), -4_500_000_000_000);
    assert_eq!(Numeric::from_raw(i128::MAX).checked_mul(Numeric::from_u64(2)), None);
    assert_eq!(Numeric::from_raw(i128::MAX).checked_add(Numeric::from_raw(1)), None);
    assert_eq!(Numeric::from_u64(2).sub(Numeric::from_u64(5)).raw(), -3_000_000_000_000);
}

#[test]
fn settle_owes_growth_times_weight() {
    let last = Numeric::from_fraction(1, 4);
    let global = Numeric::from_fraction(3, 4);
    assert_eq!(settle(global, last, 1_000), Ok(500));
    assert_eq!(settle(last, global, 1_000), Ok(0));
    assert_eq!(settle(global, global, 1_000), Ok(0));
    assert_eq!(settle(Numeric::from_raw(i128::MAX), Numeric::from_raw(i128::MIN), 1), Err(AppError::Overflow));
}

#[test]
fn reverse_bits_matches_std() {
    for x in [0u64, 1, 3, 0xdead_beef, u64::MAX, 0x8000_0000_0000_0001, 123_456_789_012_345] {
        assert_eq!(reverse_bits(x), x.reverse_bits());
    }
}

#[test]
fn round_randomness() {
    let mut round = Round::fresh(1, addr(0));
    assert_eq!(round.rng(), None);
    round.slot_hash = [255; 32];
    assert_eq!(round.rng(), None);
    let mut h = [0u8; 32];
    for i in 0..32 {
        h[i] = (i as u8).wrapping_mul(37).wrapping_add(11);
    }
    round.slot_hash = h;
    let w = |k: usize| u64::from_le_bytes(h[k..k + 8].try_into().unwrap());
    let r = w(0) ^ w(8) ^ w(16) ^ w(24);
    assert_eq!(round.rng(), Some(r));
    assert_eq!(round.winning_square(r), (r % 25) as usize);
    let rev = r.reverse_bits().to_le_bytes();
    let word = |k: usize| u16::from_le_bytes([rev[k], rev[k + 1]]);
    assert_eq!(round.is_split_reward(r), (word(0) ^ word(2) ^ word(4) ^ word(6)) % 2 == 0);
    assert_eq!(round.did_hit_motherlode(r), r.reverse_bits() % 625 == 0);
    assert!(!round.did_hit_motherlode(3));
    assert!(round.did_hit_motherlode(0));
}

#[test]
fn top_miner_sample_and_winnings() {
    let mut round = Round::fresh(1, addr(0));
    assert_eq!(round.top_miner_sample(3, 3), 0);
    round.deployed[3] = 1_000;
    round.deployed[7] = 500;
    round.deployed[24] = 20;
    round.total_deployed = 1_520;
    assert_eq!(round.top_miner_sample(3, 3), 0xC000_0000_0000_0000u64 % 1_000);
    assert_eq!(round.calculate_total_winnings(3), 520);
    assert_eq!(round.calculate_total_winnings(0), 1_520);
}

#[test]
fn emission_schedule() {
    let mut b = Board::new(0);
    assert_eq!(b.current_reward(50 * DAY), 20 * TOKEN);
    b.mining_start_slot = 1_000;
    assert_eq!(b.current_reward(500), 20 * TOKEN);
    assert_eq!(b.current_reward(1_000 + 3 * DAY), 20 * TOKEN);
    assert_eq!(b.current_reward(1_000 + 4 * DAY), 18 * TOKEN);
    assert_eq!(b.current_reward(1_000 + 9 * DAY), 8 * TOKEN);
    assert_eq!(b.current_reward(1_000 + 10 * DAY), 6 * TOKEN);
    assert_eq!(b.current_reward(1_000 + 70 * DAY), 6 * TOKEN);
    assert_eq!(b.current_reward(1_000 + 100 * DAY), 5 * TOKEN);
    assert_eq!(b.current_reward(1_000 + 190 * DAY), 2 * TOKEN);
    assert_eq!(b.current_reward(1_000 + 220 * DAY), TOKEN);
    assert_eq!(b.current_reward(u64::MAX), TOKEN);
    let mut last = u64::MAX;
    let mut slot = 0u64;
    while slot < 400 * DAY {
        let r = b.current_reward(slot);
        assert!(r <= last && r >= TOKEN);
        last = r;
        slot += DAY / 2;
    }
}

#[test]
fn distribution_split() {
    let d = split_losing_total(500);
    assert_eq!((d.winners_share, d.buyback, d.reserve, d.motherlode), (440, 40, 10, 10));
    assert_eq!((d.platform_fee, d.winners), (4, 436));
    let d = split_losing_total(u64::MAX);
    let total = d.winners as u128 + d.platform_fee as u128 + d.buyback as u128 + d.reserve as u128
        + d.motherlode as u128;
    assert!(total <= u64::MAX as u128 && total + 3 >= u64::MAX as u128);
    let d = split_losing_total(99);
    assert_eq!((d.winners_share, d.buyback, d.reserve, d.platform_fee, d.winners), (87, 7, 1, 0, 87));
}

#[test]
fn referral_fee_is_one_percent_rounded_down() {
    assert_eq!(split_referral_fee(1_000), (10, 990));
    assert_eq!(split_referral_fee(1_099), (10, 1_089));
    assert_eq!(split_referral_fee(99), (0, 99));
    assert_eq!(split_referral_fee(0), (0, 0));
}

#[test]
fn referral_registration_and_claims() {
    assert_eq!(Referral::register(addr(1), addr(1), 5).err(), Some(AppError::SelfReferral));
    let r = Referral::register(addr(1), addr(2), 5).unwrap();
    assert_eq!(r.created_at, 5);
    let mut a = r;
    a.pending_rewards = 10;
    let mut b = Referral::register(addr(4), addr(2), 5).unwrap();
    b.pending_rewards = 15;
    b.claimed_rewards = 1;
    let mut list = vec![a, b];
    assert_eq!(claim_referral_rewards(&mut list, &addr(3)), Err(AppError::InvalidReferral));
    assert_eq!(list[0].pending_rewards, 10);
    assert_eq!(claim_referral_rewards(&mut list, &addr(2)), Ok(25));
    assert_eq!((list[0].pending_rewards, list[0].claimed_rewards), (0, 10));
    assert_eq!((list[1].pending_rewards, list[1].claimed_rewards), (0, 16));
    assert_eq!(claim_referral_rewards(&mut list, &addr(2)), Err(AppError::InvalidAmount));
    let mut empty: Vec<Referral> = Vec::new();
    assert_eq!(claim_referral_rewards(&mut empty, &addr(2)), Err(AppError::InvalidAmount));
}

#[test]
fn random_mask_picks_exactly_the_count() {
    let hash = [200u8; 32];
    for n in 0..=25u64 {
        let m = generate_random_mask(n, &hash);
        assert_eq!(m.iter().filter(|x| **x).count() as u64, n);
    }
    let zero = generate_random_mask(3, &[0u8; 32]);
    assert!(zero[0] && zero[1] && zero[2] && !zero[3]);
}

#[test]
fn random_squares_use_keccak_of_authority_and_round() {
    let a = addr(5);
    let id = 42u64;
    let id_bytes = id.to_le_bytes();
    let hash = solana_nostd_keccak::hashv(&[&a.bytes[..], &id_bytes[..]]);
    assert_eq!(random_squares(&a, id, 0x107), generate_random_mask(7, &hash));
    assert_eq!(random_squares(&a, id, 0xff), generate_random_mask(25, &hash));
    assert_eq!(le_bytes(id), id.to_le_bytes());
    assert_ne!(hash, a.bytes);
}

#[test]
fn strategy_tags_and_masks() {
    assert_eq!(AutomationStrategy::from_u64(0), AutomationStrategy::Random);
    assert_eq!(AutomationStrategy::from_u64(1), AutomationStrategy::Preferred);
    assert_eq!(AutomationStrategy::from_u64(9), AutomationStrategy::Random);
    let m = mask_squares(0b1000_0000_0000_0000_0000_0101);
    assert!(m[0] && !m[1] && m[2] && m[23] && !m[24]);
}

fn open_world() -> (Board, Round, DeployContext, Vec<u8>) {
    let board = Board::new(1_000);
    let round = Round::fresh(0, addr(0));
    let ctx = DeployContext {
        slot: 2_000,
        now: 0,
        signer: addr(1),
        authority: addr(1),
        var_address: addr(7),
        config_var_address: addr(7),
    };
    (board, round, ctx, vec![0u8; 100])
}

#[test]
fn deploy_opens_window_and_records_deposits() {
    let (mut board, mut round, ctx, data) = open_world();
    board.round_id = 3;
    let mut m = Miner::new(Address::zero());
    let mut none: Option<Automation> = None;
    let out = deploy(&mut board, &mut round, &mut m, &mut none, &ctx, &data, 1_000, 0b1001).unwrap();
    assert_eq!(board.start_slot, 2_000);
    assert_eq!(board.end_slot, 2_150);
    assert_eq!(round.id, 3);
    assert_eq!(round.expires_at, 2_150 + DAY);
    assert_eq!(out.total_deployed, 2_000);
    assert_eq!(out.checkpoint_fee, 10_000);
    assert_eq!(out.entropy_next, None);
    assert_eq!((round.deployed[0], round.deployed[3], round.total_deployed), (1_000, 1_000, 2_000));
    assert_eq!((m.deployed[0], m.deployed[3], m.round_id), (1_000, 1_000, 3));
    assert!(m.authority.same(&addr(1)));
    // Square 3 again is a no-op; square 4 is new.
    let mut c2 = ctx;
    c2.slot = 2_001;
    let mut other = Miner::new(Address::zero());
    let mut c3 = ctx;
    c3.signer = addr(2);
    c3.authority = addr(2);
    let out3 = deploy(&mut board, &mut round, &mut other, &mut none, &c3, &data, 3_000, 0b1000).unwrap();
    assert_eq!(out3.total_deployed, 3_000);
    assert_eq!(other.cumulative[3], 1_000);
    assert_eq!(round.count[3], 2);
    let out2 = deploy(&mut board, &mut round, &mut m, &mut none, &c2, &data, 1_000, 0b11000).unwrap();
    assert_eq!(out2.total_deployed, 1_000);
    // Re-picking square 3 leaves its snapshot alone.
    assert_eq!((m.cumulative[3], m.cumulative[4]), (0, 0));
    assert_eq!(out2.checkpoint_fee, 0);
    assert_eq!(round.deployed[3], 4_000);
    assert_eq!(round.deployed[4], 1_000);
    assert_eq!(round.total_deployed, 6_000);
    let sum: u64 = round.deployed.iter().sum();
    assert_eq!(sum, round.total_deployed);
}

#[test]
fn deploy_refusals() {
    let (mut board, mut round, ctx, data) = open_world();
    let mut m = Miner::new(Address::zero());
    let mut none: Option<Automation> = None;
    let r = deploy(&mut board, &mut round, &mut m, &mut none, &ctx, &data, 999, 1);
    assert_eq!(r.err(), Some(AppError::AmountTooSmall));
    let mut bad = ctx;
    bad.config_var_address = Address::zero();
    let r = deploy(&mut board, &mut round, &mut m, &mut none, &bad, &data, 1_000, 1);
    assert_eq!(r.err(), Some(AppError::EntropyNotConfigured));
    bad.config_var_address = addr(8);
    let r = deploy(&mut board, &mut round, &mut m, &mut none, &bad, &data, 1_000, 1);
    assert_eq!(r.err(), Some(AppError::InvalidEntropyVar));
    deploy(&mut board, &mut round, &mut m, &mut none, &ctx, &data, 1_000, 1).unwrap();
    let mut late = ctx;
    late.slot = 2_150;
    let r = deploy(&mut board, &mut round, &mut m, &mut none, &late, &data, 1_000, 2);
    assert_eq!(r.err(), Some(AppError::RoundEnded));
    let mut stranger = ctx;
    stranger.signer = addr(9);
    let r = deploy(&mut board, &mut round, &mut m, &mut none, &stranger, &data, 1_000, 2);
    assert_eq!(r.err(), Some(AppError::NotAuthorized));
    // A miner that did not settle its earlier round cannot join a new one.
    let mut stale = Miner::new(addr(1));
    stale.round_id = 7;
    stale.checkpoint_id = 6;
    let r = deploy(&mut board, &mut round, &mut stale, &mut none, &ctx, &data, 1_000, 2);
    assert_eq!(r.err(), Some(AppError::MustCheckpoint));
}

#[test]
fn deploy_asks_oracle_when_finalized() {
    let (mut board, mut round, ctx, _) = open_world();
    let mut data = vec![1u8; 208];
    data[0] = 0;
    let mut m = Miner::new(Address::zero());
    let mut none: Option<Automation> = None;
    let out = deploy(&mut board, &mut round, &mut m, &mut none, &ctx, &data, 1_000, 1).unwrap();
    assert_eq!(out.entropy_next, Some(2_160));
    assert!(var_data_finalized(&data));
    data[150] = 0;
    assert!(var_data_finalized(&data));
    for b in data[144..176].iter_mut() {
        *b = 0;
    }
    assert!(!var_data_finalized(&data));
    assert!(!var_data_finalized(&[1u8; 207]));
}

#[test]
fn automated_deploy_stops_when_balance_runs_out() {
    let (mut board, mut round, mut ctx, data) = open_world();
    ctx.signer = addr(6);
    ctx.authority = addr(1);
    let auto = Automation {
        amount: 1_000,
        authority: addr(1),
        balance: 2_600,
        executor: addr(6),
        fee: 500,
        strategy: 1,
        mask: 0b111,
    };
    let mut a = Some(auto);
    let mut m = Miner::new(Address::zero());
    let out = deploy(&mut board, &mut round, &mut m, &mut a, &ctx, &data, 0, 0).unwrap();
    assert_eq!(out.total_deployed, 2_000);
    assert_eq!(out.executor_fee, 500);
    assert_eq!(a.unwrap().balance, 100);
    assert!(out.close_automation);
    assert!(m.authority.same(&addr(1)));
    assert_eq!((m.deployed[0], m.deployed[1], m.deployed[2]), (1_000, 1_000, 0));
    let mut wrong = ctx;
    wrong.signer = addr(5);
    let mut a2 = Some(auto);
    let r = deploy(&mut board, &mut round, &mut m, &mut a2, &wrong, &data, 0, 0);
    assert_eq!(r.err(), Some(AppError::NotAuthorized));
}

#[test]
fn automation_configuration() {
    let mut auto = Automation {
        amount: 0,
        authority: Address::zero(),
        balance: 0,
        executor: Address::zero(),
        fee: 0,
        strategy: 0,
        mask: 0,
    };
    let mut m = Miner::new(Address::zero());
    let args = AutomateArgs { amount: 1_000, deposit: 5_000, fee: 50, mask: 3, strategy: 1 };
    let out = automate(&mut auto, &mut m, &addr(1), &addr(6), &args).unwrap();
    assert_eq!(out, AutomateOutcome::Configured { deposit: 5_000, checkpoint_fee: 10_000 });
    assert_eq!((auto.balance, auto.strategy, auto.fee), (5_000, 1, 50));
    assert!(auto.authority.same(&addr(1)));
    let out = automate(&mut auto, &mut m, &addr(1), &addr(6), &args).unwrap();
    assert_eq!(out, AutomateOutcome::Configured { deposit: 5_000, checkpoint_fee: 0 });
    assert_eq!(auto.balance, 10_000);
    assert_eq!(automate(&mut auto, &mut m, &addr(2), &addr(6), &args).err(), Some(AppError::NotAuthorized));
    assert_eq!(automate(&mut auto, &mut m, &addr(1), &Address::zero(), &args), Ok(AutomateOutcome::Closed));
    assert_eq!(cancel_automate(&auto, &addr(1)), Ok(10_000));
    assert_eq!(cancel_automate(&auto, &addr(2)), Err(AppError::NotAuthorized));
}

#[test]
fn staking_accrues_by_balance() {
    let mut t = Treasury::new();
    let mut s = Stake::new(Address::zero(), &t);
    let me = addr(1);
    assert_eq!(stake_deposit(&mut s, &mut t, &me, 10, 100, 0), Err(AppError::AmountTooSmall));
    assert_eq!(stake_deposit(&mut s, &mut t, &me, 4 * TOKEN, 3 * TOKEN, 1), Ok(3 * TOKEN));
    assert_eq!((s.balance, t.total_staked), (3 * TOKEN, 3 * TOKEN));
    assert!(s.authority.same(&me));
    t.stake_rewards_factor = Numeric::from_fraction(1, 2);
    assert_eq!(stake_withdraw(&mut s, &mut t, &me, TOKEN, 2), Ok(TOKEN));
    assert_eq!(s.rewards, 1_500_000_000);
    assert_eq!(s.balance, 2 * TOKEN);
    assert_eq!(stake_withdraw(&mut s, &mut t, &addr(2), TOKEN, 2), Err(AppError::NotAuthorized));
    assert_eq!(stake_claim(&mut s, &t, &me, 3), Ok(1_500_000_000));
    assert_eq!((s.rewards, s.lifetime_rewards), (0, 1_500_000_000));
    assert_eq!(stake_withdraw(&mut s, &mut t, &me, u64::MAX, 4), Ok(2 * TOKEN));
    assert_eq!(t.total_staked, 0);
}

#[test]
fn token_claim_charges_fee_shared_by_others() {
    let mut t = Treasury::new();
    t.total_unclaimed = 2_000;
    let mut m = Miner::new(addr(1));
    m.rewards_token = 1_000;
    m.lifetime_rewards_token = 1_000;
    let paid = m.claim_token(9, &mut t).unwrap();
    assert_eq!(paid, 900);
    assert_eq!(t.total_unclaimed, 1_000);
    assert_eq!(t.total_refined, 100);
    assert_eq!(t.miner_rewards_factor.raw(), 100_000_000_000);
    assert_eq!((m.rewards_token, m.lifetime_rewards_token, m.last_claim_token_at), (0, 900, 9));
    // Another miner holding 1000 unclaimed now refines 100 of fees.
    let mut other = Miner::new(addr(2));
    other.rewards_token = 1_000;
    other.update_rewards(&t).unwrap();
    assert_eq!(other.refined_token, 100);
    let paid = other.claim_token(10, &mut t).unwrap();
    assert_eq!(paid, 1_100);
    assert_eq!((t.total_unclaimed, t.total_refined), (0, 0));
    let mut broke = Miner::new(addr(3));
    broke.rewards_token = 5;
    let before = t;
    assert_eq!(broke.claim_token(1, &mut t), Err(AppError::Underflow));
    assert_eq!(t.total_unclaimed, before.total_unclaimed);
    assert_eq!(m.claim_sol(3), 0);
    m.rewards_sol = 77;
    assert_eq!(m.claim_sol(4), 77);
    assert_eq!((m.rewards_sol, m.last_claim_sol_at), (0, 4));
}

#[test]
fn config_admin_changes() {
    let mut c = Config::new(addr(1));
    assert!(c.var_address.is_zero());
    assert_eq!(c.set_admin(&addr(2), &SetAdminArgs { new_admin: addr(2) }), Err(AppError::NotAuthorized));
    c.set_buffer(&addr(1), &SetBufferArgs { buffer: 9 }).unwrap();
    assert_eq!(c.buffer, 9);
    c.set_admin(&addr(1), &SetAdminArgs { new_admin: addr(2) }).unwrap();
    assert!(c.admin.same(&addr(2)));
    c.set_var_address(&addr(2), &addr(7)).unwrap();
    assert!(c.var_address.same(&addr(7)));
    assert_eq!(new_var_end_at(0, 500, 100), Ok(500));
    assert_eq!(new_var_end_at(90, 500, 100), Err(AppError::InvalidEndSlot));
    assert_eq!(new_var_end_at(101, 500, 100), Ok(101));
}

#[test]
fn oracle_instruction_bytes() {
    let mut expected = vec![2u8];
    expected.extend_from_slice(&1_234u64.to_le_bytes());
    assert_eq!(next_instruction_data(1_234), expected);
    let commit = [9u8; 32];
    let mut open = vec![0u8];
    open.extend_from_slice(&5u64.to_le_bytes());
    open.extend_from_slice(&commit);
    open.extend_from_slice(&0u64.to_le_bytes());
    open.extend_from_slice(&7u64.to_le_bytes());
    open.extend_from_slice(&99u64.to_le_bytes());
    assert_eq!(open_instruction_data(5, &commit, 7, 99), open);
}

#[test]
fn safety_checks() {
    assert_eq!(check_transfer_safe(100, 10, 90), Ok(()));
    assert_eq!(check_transfer_safe(100, 10, 91), Err(AppError::InsufficientBalance));
    assert_eq!(check_transfer_safe(u64::MAX, u64::MAX, 1), Err(AppError::InsufficientBalance));
    let pre = SwapSnapshot { token_balance: 10, sol_balance: 50, mint_supply: 1_000, treasury_lamports: 7 };
    let good = SwapSnapshot { token_balance: 25, sol_balance: 0, mint_supply: 1_000, treasury_lamports: 7 };
    assert_eq!(check_swap_result(&pre, &good), Ok(15));
    let minted = SwapSnapshot { mint_supply: 1_001, ..good };
    assert_eq!(check_swap_result(&pre, &minted), Err(AppError::InvalidSwapState));
    let leftover = SwapSnapshot { sol_balance: 1, ..good };
    assert_eq!(check_swap_result(&pre, &leftover), Err(AppError::InvalidSwapState));
}

#[test]
fn treasury_wrap() {
    let mut t = Treasury::new();
    t.wrap(40).unwrap();
    assert_eq!(t.buyback_bl, 40);
    t.buyback_bl = u64::MAX;
    assert_eq!(t.wrap(1), Err(AppError::Overflow));
}

#[test]
fn reward_factors_never_decrease_across_operations() {
    let mut t = Treasury::new();
    t.total_unclaimed = 10_000;
    let mut miners: Vec<Miner> = (0..4u8)
        .map(|i| {
            let mut m = Miner::new(addr(i + 1));
            m.rewards_token = 2_500;
            m.lifetime_rewards_token = 2_500;
            m
        })
        .collect();
    let mut s = Stake::new(Address::zero(), &t);
    let me = addr(9);
    stake_deposit(&mut s, &mut t, &me, 2 * TOKEN, 5 * TOKEN, 0).unwrap();
    let mut last = (t.miner_rewards_factor.raw(), t.stake_rewards_factor.raw());
    for step in 0..12usize {
        match step % 4 {
            0 => {
                let _ = miners[step % 4].claim_token(step as i64, &mut t);
            }
            1 => {
                let _ = stake_withdraw(&mut s, &mut t, &me, TOKEN / 4, step as i64);
            }
            2 => {
                let _ = stake_claim(&mut s, &t, &me, step as i64);
            }
            _ => {
                let _ = stake_deposit(&mut s, &mut t, &me, TOKEN, TOKEN, step as i64);
                let _ = miners[(step + 1) % 4].update_rewards(&t);
            }
        }
        let now = (t.miner_rewards_factor.raw(), t.stake_rewards_factor.raw());
        assert!(now.0 >= last.0 && now.1 >= last.1);
        last = now;
    }
    assert!(t.miner_rewards_factor.raw() > 0);
}

#[test]
fn automated_deploy_without_funds_for_fee_refused() {
    let (mut board, mut round, mut ctx, data) = open_world();
    ctx.signer = addr(6);
    ctx.authority = addr(1);
    let auto = Automation {
        amount: 1_000,
        authority: addr(1),
        balance: 100,
        executor: addr(6),
        fee: 500,
        strategy: 1,
        mask: 0b1,
    };
    let mut a = Some(auto);
    let mut m = Miner::new(Address::zero());
    let r = deploy(&mut board, &mut round, &mut m, &mut a, &ctx, &data, 0, 0);
    assert_eq!(r.err(), Some(AppError::InsufficientBalance));
    assert_eq!(a.unwrap().balance, 100);
    assert_eq!(round.total_deployed, 0);
}
