use vstd::prelude::*;

use crate::address::{zero_bytes, Address};
use crate::ledger::{lemma_sum_bounds_entry, lemma_sum_prefix, lemma_sum_zeros, sum};

verus! {

/// One round of the square game.
#[derive(Clone, Copy, Debug)]
pub struct Round {
    /// The round number.
    pub id: u64,
    /// Currency deployed on each square.
    pub deployed: [u64; 25],
    /// The outcome seed; all zero while unresolved.
    pub slot_hash: [u8; 32],
    /// Number of miners on each square.
    pub count: [u64; 25],
    /// The slot from which unsettled miners forfeit their rewards.
    pub expires_at: u64,
    /// Motherlode paid out in this round.
    pub motherlode: u64,
    /// Who paid for the round's record.
    pub rent_payer: Address,
    /// The top miner; zero for none, the split sentinel when the emission is shared.
    pub top_miner: Address,
    /// Tokens reserved for the top miner, or for all winners in a split round.
    pub top_miner_reward: u64,
    /// Currency deployed in the round.
    pub total_deployed: u64,
    /// Currency moved to the treasury.
    pub total_vaulted: u64,
    /// Currency for staking rewards.
    pub total_stake_rewards: u64,
    /// Currency won by the winners, net of fees.
    pub total_winnings: u64,
}

/// The little-endian 64-bit word at byte `off` of `h`.
pub open spec fn le_word(h: Seq<u8>, off: int) -> u64 {
    (h[off] as u64) | ((h[off + 1] as u64) << 8u64) | ((h[off + 2] as u64) << 16u64) | ((h[off
        + 3] as u64) << 24u64) | ((h[off + 4] as u64) << 32u64) | ((h[off + 5] as u64) << 40u64)
        | ((h[off + 6] as u64) << 48u64) | ((h[off + 7] as u64) << 56u64)
}

/// The four little-endian words of a 32-byte seed, combined by exclusive or.
pub open spec fn seed_value(h: Seq<u8>) -> u64 {
    le_word(h, 0) ^ le_word(h, 8) ^ le_word(h, 16) ^ le_word(h, 24)
}

/// Whether each of the 32 bytes of `h` is `b`.
pub open spec fn all_bytes(h: Seq<u8>, b: u8) -> bool {
    forall|i: int| 0 <= i < 32 ==> h[i] == b
}

/// The random value of a round: none while the seed is all zero or all ones.
pub open spec fn rng_of(h: Seq<u8>) -> Option<u64> {
    if all_bytes(h, 0) || all_bytes(h, 255) {
        None
    } else {
        Some(seed_value(h))
    }
}

/// Moves the low bit of `rest` onto the low end of `acc`, `n` times.
pub open spec fn reverse_step(acc: u64, rest: u64, n: nat) -> u64
    decreases n,
{
    if n == 0 {
        acc
    } else {
        reverse_step((acc << 1u64) | (rest & 1u64), rest >> 1u64, (n - 1) as nat)
    }
}

/// The 64 bits of `x` in reverse order.
pub open spec fn reversed(x: u64) -> u64 {
    reverse_step(0, x, 64)
}

/// The winning square of a random value.
pub open spec fn winning_square_of(rng: u64) -> int {
    (rng % 25) as int
}

/// Whether a random value makes the round's emission split among all winners: the four
/// 16-bit words of the reversed value, combined by exclusive or, are even.
pub open spec fn split_of(rng: u64) -> bool {
    let v = reversed(rng);
    ((v & 0xffffu64) ^ ((v >> 16u64) & 0xffffu64) ^ ((v >> 32u64) & 0xffffu64) ^ ((v >> 48u64)
        & 0xffffu64)) % 2 == 0
}

/// Whether a random value pays out the motherlode.
pub open spec fn motherlode_of(rng: u64) -> bool {
    reversed(rng) % 625 == 0
}

/// The bits of `x` in reverse order.
pub fn reverse_bits(x: u64) -> (r: u64)
    ensures
        r == reversed(x),
{
    let mut acc: u64 = 0;
    let mut rest: u64 = x;
    let mut i: u64 = 0;
    while i < 64
        invariant
            i <= 64,
            reverse_step(acc, rest, (64 - i) as nat) == reversed(x),
        decreases 64 - i,
    {
        acc = (acc << 1u64) | (rest & 1u64);
        rest = rest >> 1u64;
        i = i + 1;
    }
    acc
}

fn le_word_at(h: &[u8; 32], off: usize) -> (r: u64)
    requires
        off + 8 <= 32,
    ensures
        r == le_word(h@, off as int),
{
    (h[off] as u64) | ((h[off + 1] as u64) << 8u64) | ((h[off + 2] as u64) << 16u64) | ((h[off
        + 3] as u64) << 24u64) | ((h[off + 4] as u64) << 32u64) | ((h[off + 5] as u64) << 40u64)
        | ((h[off + 6] as u64) << 48u64) | ((h[off + 7] as u64) << 56u64)
}

/// Whether every byte of `h` is `b`.
pub fn all_bytes_are(h: &[u8; 32], b: u8) -> (r: bool)
    ensures
        r == all_bytes(h@, b),
{
    let mut i: usize = 0;
    while i < 32
        invariant
            i <= 32,
            forall|j: int| 0 <= j < i ==> h@[j] == b,
        decreases 32 - i,
    {
        if h[i] != b {
            return false;
        }
        i = i + 1;
    }
    true
}

/// The all-zero sequence of 25 amounts.
pub open spec fn zeros25() -> Seq<u64> {
    Seq::new(25, |i: int| 0u64)
}

impl Round {
    /// Deposits per square add up to the round's total.
    pub open spec fn wf(&self) -> bool {
        sum(self.deployed@) == self.total_deployed
    }

    /// Whether the seed is still all zero.
    pub open spec fn unresolved(&self) -> bool {
        all_bytes(self.slot_hash@, 0)
    }

    /// Whether this is round `id` with nothing in it, waiting for its first deployment:
    /// no deposits or depositors, an all-zero seed, no deadline yet, no motherlode, no top
    /// miner or reward, and all totals zero.
    pub open spec fn is_fresh(&self, id: u64, rent_payer: Address) -> bool {
        &&& self.id == id
        &&& self.deployed@ == zeros25()
        &&& self.count@ == zeros25()
        &&& self.slot_hash@ == Seq::new(32, |i: int| 0u8)
        &&& self.expires_at == u64::MAX
        &&& self.motherlode == 0
        &&& self.rent_payer == rent_payer
        &&& self.top_miner.bytes@ == zero_bytes()
        &&& self.top_miner_reward == 0
        &&& self.total_deployed == 0
        &&& self.total_vaulted == 0
        &&& self.total_stake_rewards == 0
        &&& self.total_winnings == 0
    }

    /// A round with nothing in it, waiting for its first deployment.
    pub fn fresh(id: u64, rent_payer: Address) -> (r: Round)
        ensures
            r.is_fresh(id, rent_payer),
            r.unresolved(),
            r.wf(),
    {
        let r = Round {
            id,
            deployed: [0u64; 25],
            slot_hash: [0u8; 32],
            count: [0u64; 25],
            expires_at: u64::MAX,
            motherlode: 0,
            rent_payer,
            top_miner: Address::zero(),
            top_miner_reward: 0,
            total_deployed: 0,
            total_vaulted: 0,
            total_stake_rewards: 0,
            total_winnings: 0,
        };
        assert(r.deployed@ =~= zeros25());
        assert(r.count@ =~= zeros25());
        assert(r.slot_hash@ =~= Seq::new(32, |i: int| 0u8));
        proof {
            lemma_sum_zeros(25);
        }
        r
    }

    /// The round's random value: the four little-endian words of the seed combined by
    /// exclusive or; none while the seed is all zero or all ones.
    pub fn rng(&self) -> (r: Option<u64>)
        ensures
            r == rng_of(self.slot_hash@),
    {
        if all_bytes_are(&self.slot_hash, 0) || all_bytes_are(&self.slot_hash, 255) {
            return None;
        }
        let r1 = le_word_at(&self.slot_hash, 0);
        let r2 = le_word_at(&self.slot_hash, 8);
        let r3 = le_word_at(&self.slot_hash, 16);
        let r4 = le_word_at(&self.slot_hash, 24);
        Some(r1 ^ r2 ^ r3 ^ r4)
    }

    /// The winning square: the random value modulo 25.
    pub fn winning_square(&self, rng: u64) -> (r: usize)
        ensures
            r == winning_square_of(rng),
            r < 25,
    {
        (rng % 25) as usize
    }

    /// The sample that picks the top miner on the winning square: the reversed random value
    /// modulo what was deployed there, zero when nothing was.
    pub fn top_miner_sample(&self, rng: u64, winning_square: usize) -> (r: u64)
        requires
            winning_square < 25,
        ensures
            self.deployed@[winning_square as int] == 0 ==> r == 0,
            self.deployed@[winning_square as int] != 0 ==> r == reversed(rng)
                % self.deployed@[winning_square as int],
    {
        if self.deployed[winning_square] == 0 {
            return 0;
        }
        reverse_bits(rng) % self.deployed[winning_square]
    }

    /// What was deployed on every square but the winning one.
    pub fn calculate_total_winnings(&self, winning_square: usize) -> (r: u64)
        requires
            winning_square < 25,
            sum(self.deployed@) <= u64::MAX,
        ensures
            r == sum(self.deployed@) - self.deployed@[winning_square as int],
    {
        let mut total: u64 = 0;
        let mut i: usize = 0;
        proof {
            lemma_sum_bounds_entry(self.deployed@, winning_square as int);
            assert(self.deployed@.subrange(0, 0) =~= Seq::<u64>::empty());
            assert(self.deployed@.subrange(0, 25) =~= self.deployed@);
        }
        while i < 25
            invariant
                i <= 25,
                winning_square < 25,
                sum(self.deployed@) <= u64::MAX,
                total == sum(self.deployed@.subrange(0, i as int)) - (if winning_square < i {
                    self.deployed@[winning_square as int] as int
                } else {
                    0
                }),
                self.deployed@.subrange(0, 25) == self.deployed@,
            decreases 25 - i,
        {
            proof {
                lemma_sum_prefix(self.deployed@, i as int);
                lemma_prefix_le(self.deployed@, i as int + 1);
                if winning_square <= i {
                    lemma_sum_bounds_entry(
                        self.deployed@.subrange(0, i as int + 1),
                        winning_square as int,
                    );
                }
            }
            if i != winning_square {
                total = total + self.deployed[i];
            }
            i = i + 1;
        }
        total
    }

    /// Whether the round's emission is split among all winners.
    pub fn is_split_reward(&self, rng: u64) -> (r: bool)
        ensures
            r == split_of(rng),
    {
        let v = reverse_bits(rng);
        let w = (v & 0xffffu64) ^ ((v >> 16u64) & 0xffffu64) ^ ((v >> 32u64) & 0xffffu64) ^ ((v
            >> 48u64) & 0xffffu64);
        w % 2 == 0
    }

    /// Whether the round pays out the motherlode.
    pub fn did_hit_motherlode(&self, rng: u64) -> (r: bool)
        ensures
            r == motherlode_of(rng),
    {
        reverse_bits(rng) % 625 == 0
    }
}

/// A prefix sums to no more than the whole.
pub proof fn lemma_prefix_le(s: Seq<u64>, i: int)
    requires
        0 <= i <= s.len(),
    ensures
        sum(s.subrange(0, i)) <= sum(s),
    decreases s.len() - i,
{
    if i < s.len() {
        lemma_prefix_le(s, i + 1);
        lemma_sum_prefix(s, i);
        assert(s[i] >= 0);
    } else {
        assert(s.subrange(0, i) =~= s);
    }
}

} // verus!
