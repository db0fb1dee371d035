use ruby_program::address::Address;
use ruby_program::board::Board;
use ruby_program::checkpoint::{checkpoint, CheckpointContext};
use ruby_program::entropy::EntropySample;
use ruby_program::errors::AppError;
use ruby_program::miner::Miner;
use ruby_program::referral::Referral;
use ruby_program::reset::reset;
use ruby_program::round::Round;
use ruby_program::treasury::Treasury;

fn addr(b: u8) -> Address {
    Address::new([b; 32])
}

/// A seed whose random value is 3: winning square 3, split emission, no motherlode.
fn seed_three() -> [u8; 32] {
    let mut v = [0u8; 32];
    v[0] = 3;
    v
}

struct World {
    board: Board,
    round: Round,
    treasury: Treasury,
    a: Miner,
    b: Miner,
    ref_a: Referral,
    ref_b: Referral,
}

/// Round 5 with 1000 on square 3 by miner A and 500 on square 7 by miner B, rolled over
/// with a seed that makes square 3 win.
fn resolved_world() -> World {
    let mut board = Board::new(1_000);
    board.round_id = 5;
    board.start_slot = 1_010;
    board.end_slot = 1_160;
    let mut round = Round::fresh(5, addr(9));
    round.deployed[3] = 1_000;
    round.deployed[7] = 500;
    round.count[3] = 1;
    round.count[7] = 1;
    round.total_deployed = 1_500;
    round.expires_at = 1_160 + 216_000;
    let mut a = Miner::new(addr(1));
    a.round_id = 5;
    a.checkpoint_id = 4;
    a.deployed[3] = 1_000;
    a.checkpoint_fee = 10_000;
    let mut b = Miner::new(addr(2));
    b.round_id = 5;
    b.checkpoint_id = 4;
    b.deployed[7] = 500;
    b.checkpoint_fee = 10_000;
    let mut treasury = Treasury::new();
    let entropy = EntropySample { slot_hash: [1; 32], seed: [1; 32], value: seed_three() };
    let var = addr(7);
    let out = reset(&mut board, &mut round, &mut treasury, &entropy, &var, &var, 0, 1_170, 0, &addr(9))
        .unwrap();
    assert_eq!(out.vault_transfer, 60);
    assert_eq!(out.platform_fee, 4);
    let ref_a = Referral::register(addr(1), addr(3), 0).unwrap();
    let ref_b = Referral::register(addr(2), addr(3), 0).unwrap();
    World { board, round, treasury, a, b, ref_a, ref_b }
}

fn ctx(board_round_id: u64, slot: u64) -> CheckpointContext {
    CheckpointContext {
        board_round_id,
        slot,
        now: 0,
        round_balance: 1_000_000,
        round_rent_reserve: 0,
        miner_balance: 1_000_000,
        miner_rent_reserve: 0,
    }
}

#[test]
fn rollover_splits_losing_square_value() {
    let w = resolved_world();
    assert_eq!(w.round.total_winnings, 436);
    assert_eq!(w.round.total_vaulted, 60);
    assert_eq!(w.treasury.buyback_bl, 40);
    assert_eq!(w.treasury.reserve_bl, 10);
    assert_eq!(w.treasury.motherlode_sol_bl, 10);
    assert_eq!(w.treasury.leaderboard_bl, 5);
    assert_eq!(w.board.mini_motherlode_sol, 5);
    assert_eq!(w.board.round_id, 6);
    assert_eq!(w.board.end_slot, u64::MAX);
    assert_eq!(w.board.total_minted, 20_000_000_000);
    assert_eq!(w.round.top_miner_reward, 20_000_000_000);
    assert!(w.round.top_miner.same(&Address::split()));
    assert_eq!(w.board.motherlode_ruby, 3_000_000_000);
}

#[test]
fn winner_and_loser_checkpoints() {
    let mut w = resolved_world();
    let c = ctx(6, 2_000);
    let out = checkpoint(&mut w.a, &mut w.round, &mut w.treasury, &mut w.ref_a, &c).unwrap();
    assert_eq!(out.sol_transfer, 1_436);
    assert_eq!(out.bot_fee, 0);
    assert_eq!(w.a.rewards_sol, 1_436);
    assert_eq!(w.a.rewards_token, 19_800_000_000);
    assert_eq!(w.ref_a.pending_rewards, 200_000_000);
    assert_eq!(w.a.checkpoint_id, 5);
    assert_eq!(w.treasury.total_unclaimed, 20_000_000_000);

    let out_b = checkpoint(&mut w.b, &mut w.round, &mut w.treasury, &mut w.ref_b, &c).unwrap();
    assert_eq!(out_b.sol_transfer, 0);
    assert_eq!(w.b.rewards_sol, 0);
    assert_eq!(w.b.rewards_token, 0);
    assert_eq!(w.ref_b.pending_rewards, 0);
    assert_eq!(w.b.checkpoint_id, 5);
    // The loser's 500 stays with the pools of the split.
    assert_eq!(w.treasury.buyback_bl + w.treasury.reserve_bl + w.treasury.motherlode_sol_bl, 60);
}

#[test]
fn checkpoint_twice_is_a_no_op() {
    let mut w = resolved_world();
    let c = ctx(6, 2_000);
    checkpoint(&mut w.a, &mut w.round, &mut w.treasury, &mut w.ref_a, &c).unwrap();
    let (a1, t1, f1) = (w.a, w.treasury, w.ref_a);
    let out = checkpoint(&mut w.a, &mut w.round, &mut w.treasury, &mut w.ref_a, &c).unwrap();
    assert_eq!(out.sol_transfer, 0);
    assert!(out.event.is_none());
    assert_eq!(w.a.rewards_sol, a1.rewards_sol);
    assert_eq!(w.a.rewards_token, a1.rewards_token);
    assert_eq!(w.treasury.total_unclaimed, t1.total_unclaimed);
    assert_eq!(w.ref_a.pending_rewards, f1.pending_rewards);
}

#[test]
fn checkpoint_after_expiry_forfeits() {
    let mut w = resolved_world();
    let c = ctx(6, w.round.expires_at);
    let out = checkpoint(&mut w.a, &mut w.round, &mut w.treasury, &mut w.ref_a, &c).unwrap();
    assert_eq!(out.sol_transfer, 0);
    assert_eq!(w.a.rewards_sol, 0);
    assert_eq!(w.a.rewards_token, 0);
    assert_eq!(w.a.checkpoint_id, 5);
    assert_eq!(w.ref_a.pending_rewards, 0);
}

#[test]
fn checkpoint_in_bot_window_pays_fee() {
    let mut w = resolved_world();
    let c = ctx(6, w.round.expires_at - 10);
    let out = checkpoint(&mut w.a, &mut w.round, &mut w.treasury, &mut w.ref_a, &c).unwrap();
    assert_eq!(out.bot_fee, 10_000);
    assert_eq!(w.a.checkpoint_fee, 0);
}

#[test]
fn checkpoint_payout_capped_by_round_balance() {
    let mut w = resolved_world();
    let mut c = ctx(6, 2_000);
    c.round_balance = 1_100;
    c.round_rent_reserve = 100;
    let out = checkpoint(&mut w.a, &mut w.round, &mut w.treasury, &mut w.ref_a, &c).unwrap();
    assert_eq!(out.sol_transfer, 1_000);
    assert_eq!(w.a.rewards_sol, 1_000);
}

#[test]
fn checkpoint_skips_current_round() {
    let mut w = resolved_world();
    let c = ctx(5, 2_000);
    checkpoint(&mut w.a, &mut w.round, &mut w.treasury, &mut w.ref_a, &c).unwrap();
    assert_eq!(w.a.checkpoint_id, 4);
}

#[test]
fn checkpoint_rent_shortfall_refused() {
    let mut w = resolved_world();
    let mut c = ctx(6, 2_000);
    c.miner_balance = 10_000;
    c.miner_rent_reserve = 1;
    let before = w.a;
    let r = checkpoint(&mut w.a, &mut w.round, &mut w.treasury, &mut w.ref_a, &c);
    assert_eq!(r.err(), Some(AppError::InsufficientRent));
    assert_eq!(w.a.checkpoint_id, before.checkpoint_id);
}

#[test]
fn checkpoint_inconsistent_deployment_refused() {
    let mut w = resolved_world();
    w.a.deployed[3] = 5_000;
    let c = ctx(6, 2_000);
    let r = checkpoint(&mut w.a, &mut w.round, &mut w.treasury, &mut w.ref_a, &c);
    assert_eq!(r.err(), Some(AppError::InvalidDeployment));
}

#[test]
fn unresolved_round_only_marks_settled() {
    let mut round = Round::fresh(5, addr(9));
    round.expires_at = 10_000;
    let mut m = Miner::new(addr(1));
    m.round_id = 5;
    m.checkpoint_id = 4;
    m.deployed[0] = 1_000;
    let mut t = Treasury::new();
    let mut f = Referral::register(addr(1), addr(3), 0).unwrap();
    checkpoint(&mut m, &mut round, &mut t, &mut f, &ctx(6, 100)).unwrap();
    assert_eq!(m.checkpoint_id, 5);
    assert_eq!(m.rewards_sol, 0);
}

#[test]
fn all_ones_seed_refunds_everything() {
    let mut round = Round::fresh(5, addr(9));
    round.slot_hash = [255; 32];
    round.expires_at = 10_000;
    round.deployed[0] = 1_000;
    round.deployed[4] = 2_000;
    round.total_deployed = 3_000;
    let mut m = Miner::new(addr(1));
    m.round_id = 5;
    m.checkpoint_id = 4;
    m.deployed[0] = 1_000;
    m.deployed[4] = 2_000;
    m.checkpoint_fee = 10_000;
    let mut t = Treasury::new();
    let mut f = Referral::register(addr(1), addr(3), 0).unwrap();
    let out = checkpoint(&mut m, &mut round, &mut t, &mut f, &ctx(6, 100)).unwrap();
    assert_eq!(out.sol_transfer, 3_000);
    assert_eq!(m.rewards_sol, 3_000);
}

#[test]
fn voided_round_without_randomness() {
    let mut board = Board::new(1_000);
    board.end_slot = 1_160;
    let mut round = Round::fresh(0, addr(9));
    round.deployed[2] = 4_000;
    round.total_deployed = 4_000;
    let mut t = Treasury::new();
    let entropy = EntropySample { slot_hash: [1; 32], seed: [1; 32], value: [255; 32] };
    let var = addr(7);
    let out = reset(&mut board, &mut round, &mut t, &entropy, &var, &var, 0, 1_170, 0, &addr(9)).unwrap();
    assert_eq!(round.total_deployed, 0);
    assert_eq!(round.total_vaulted, 0);
    assert_eq!(out.mint_amount, 0);
    assert_eq!(board.round_id, 1);
    assert_eq!(board.motherlode_ruby, 3_000_000_000);
    let next = out.next_round;
    assert_eq!(next.id, 1);
    assert_eq!(next.deployed, [0; 25]);
    assert_eq!(next.count, [0; 25]);
    assert_eq!(next.slot_hash, [0; 32]);
    assert_eq!((next.expires_at, next.motherlode, next.top_miner_reward), (u64::MAX, 0, 0));
    assert_eq!((next.total_deployed, next.total_vaulted, next.total_stake_rewards, next.total_winnings), (0, 0, 0, 0));
    assert!(next.top_miner.is_zero());
    assert!(next.rent_payer.same(&addr(9)));
}

#[test]
fn house_wins_when_winning_square_empty() {
    let mut board = Board::new(1_000);
    board.end_slot = 1_160;
    let mut round = Round::fresh(0, addr(9));
    round.total_winnings = 77;
    round.deployed[7] = 4_000;
    round.total_deployed = 4_000;
    let mut t = Treasury::new();
    let entropy = EntropySample { slot_hash: [1; 32], seed: [1; 32], value: seed_three() };
    let var = addr(7);
    let out = reset(&mut board, &mut round, &mut t, &entropy, &var, &var, 0, 1_170, 0, &addr(9)).unwrap();
    assert_eq!(t.buyback_bl, 4_000);
    assert_eq!(out.vault_transfer, 4_000);
    assert_eq!(round.total_vaulted, 4_000);
    assert_eq!(round.total_winnings, 0);
    assert_eq!(board.motherlode_ruby, 3_000_000_000);
    assert_eq!(out.mint_amount, 0);
    assert_eq!(board.total_minted, 0);
    assert_eq!(board.round_id, 1);
}

#[test]
fn reset_refusals() {
    let mut board = Board::new(1_000);
    board.end_slot = 1_160;
    let mut round = Round::fresh(0, addr(9));
    let mut t = Treasury::new();
    let good = EntropySample { slot_hash: [1; 32], seed: [1; 32], value: seed_three() };
    let var = addr(7);
    let early = reset(&mut board, &mut round, &mut t, &good, &var, &var, 0, 1_169, 0, &addr(9));
    assert_eq!(early.err(), Some(AppError::RoundNotStarted));
    let wrong = reset(&mut board, &mut round, &mut t, &good, &var, &addr(8), 0, 1_170, 0, &addr(9));
    assert_eq!(wrong.err(), Some(AppError::InvalidEntropyVar));
    let pending = EntropySample { slot_hash: [1; 32], seed: [0; 32], value: seed_three() };
    let r = reset(&mut board, &mut round, &mut t, &pending, &var, &var, 0, 1_170, 0, &addr(9));
    assert_eq!(r.err(), Some(AppError::EntropyNotFinalized));
    let mut waiting = Board::new(1_000);
    let r = reset(&mut waiting, &mut round, &mut t, &good, &var, &var, 0, 5_000, 0, &addr(9));
    assert_eq!(r.err(), Some(AppError::RoundNotStarted));
}

#[test]
fn mint_capped_by_max_supply() {
    let mut board = Board::new(1_000);
    board.end_slot = 1_160;
    let mut round = Round::fresh(0, addr(9));
    round.deployed[3] = 1_000;
    round.total_deployed = 1_000;
    let mut t = Treasury::new();
    let entropy = EntropySample { slot_hash: [1; 32], seed: [1; 32], value: seed_three() };
    let var = addr(7);
    let supply = 6_000_000_000_000_000 - 5;
    let out = reset(&mut board, &mut round, &mut t, &entropy, &var, &var, supply, 1_170, 0, &addr(9))
        .unwrap();
    assert_eq!(out.mint_amount, 5);
    let mut board2 = Board::new(1_000);
    board2.end_slot = 1_160;
    let mut round2 = Round::fresh(0, addr(9));
    round2.deployed[3] = 1_000;
    round2.total_deployed = 1_000;
    let out2 = reset(&mut board2, &mut round2, &mut t, &entropy, &var, &var, u64::MAX, 1_170, 0, &addr(9))
        .unwrap();
    assert_eq!(out2.mint_amount, 0);
}
