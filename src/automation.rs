use vstd::prelude::*;

use crate::address::Address;
use crate::constants::CHECKPOINT_FEE;
use crate::errors::AppError;
use crate::miner::Miner;

verus! {

/// A participant's standing order for a delegated executor to deploy on its behalf.
#[derive(Clone, Copy, Debug)]
pub struct Automation {
    /// Currency to deploy on each square per round.
    pub amount: u64,
    /// The participant.
    pub authority: Address,
    /// Currency left to deploy and pay fees from.
    pub balance: u64,
    /// The executor allowed to deploy.
    pub executor: Address,
    /// The executor's fee per deployment.
    pub fee: u64,
    /// The strategy tag; see `AutomationStrategy::from_u64`.
    pub strategy: u64,
    /// The squares to deploy on; for the random strategy its low byte is how many.
    pub mask: u64,
}

/// How the executor picks squares.
#[derive(Clone, Copy, Debug, PartialEq, Eq, Structural)]
pub enum AutomationStrategy {
    Random,
    Preferred,
}

impl AutomationStrategy {
    /// The strategy of a tag: one is `Preferred`; zero and every unknown tag fall back to
    /// `Random`.
    pub fn from_u64(value: u64) -> (r: AutomationStrategy)
        ensures
            r == (if value == 1 {
                AutomationStrategy::Preferred
            } else {
                AutomationStrategy::Random
            }),
    {
        match value {
            0 => AutomationStrategy::Random,
            1 => AutomationStrategy::Preferred,
            _ => AutomationStrategy::Random,
        }
    }
}

/// The Keccak-256 digest of a byte string.
pub uninterp spec fn keccak256_of(data: Seq<u8>) -> Seq<u8>;

/// Relies on `solana_nostd_keccak::hashv`: the Keccak-256 digest of the slices taken as one
/// concatenated byte string.
#[verifier::external_body]
fn keccak_hashv(a: &[u8; 32], b: &[u8; 8]) -> (r: [u8; 32])
    ensures
        r@ == keccak256_of(a@ + b@),
{
    solana_nostd_keccak::hashv(&[a.as_slice(), b.as_slice()])
}

/// The eight little-endian bytes of `x`.
pub open spec fn le_bytes_of(x: u64) -> Seq<u8> {
    seq![
        (x & 0xff) as u8,
        ((x >> 8u64) & 0xff) as u8,
        ((x >> 16u64) & 0xff) as u8,
        ((x >> 24u64) & 0xff) as u8,
        ((x >> 32u64) & 0xff) as u8,
        ((x >> 40u64) & 0xff) as u8,
        ((x >> 48u64) & 0xff) as u8,
        ((x >> 56u64) & 0xff) as u8,
    ]
}

/// The eight little-endian bytes of `x`.
pub fn le_bytes(x: u64) -> (r: [u8; 8])
    ensures
        r@ == le_bytes_of(x),
{
    let r = [
        (x & 0xff) as u8,
        ((x >> 8u64) & 0xff) as u8,
        ((x >> 16u64) & 0xff) as u8,
        ((x >> 24u64) & 0xff) as u8,
        ((x >> 32u64) & 0xff) as u8,
        ((x >> 40u64) & 0xff) as u8,
        ((x >> 48u64) & 0xff) as u8,
        ((x >> 56u64) & 0xff) as u8,
    ];
    assert(r@ =~= le_bytes_of(x));
    r
}

/// Whether the proportional scan picks square `i` when `count` squares are already picked:
/// while squares are still needed, the square's hash byte, times the squares left, is below
/// the number still needed times 256.
pub open spec fn pick_at(num: u64, hash: Seq<u8>, i: int, count: int) -> bool {
    &&& num - count > 0
    &&& hash[i] * (25 - i) < (num - count) * 256
}

/// How many of the first `i` squares the proportional scan picks for `num` squares.
pub open spec fn picked_count(num: u64, hash: Seq<u8>, i: int) -> int
    decreases i,
{
    if i <= 0 {
        0
    } else {
        let c = picked_count(num, hash, i - 1);
        c + if pick_at(num, hash, i - 1, c) {
            1int
        } else {
            0
        }
    }
}

/// Whether the proportional scan for `num` squares picks square `i`.
pub open spec fn picked(num: u64, hash: Seq<u8>, i: int) -> bool {
    pick_at(num, hash, i, picked_count(num, hash, i))
}

/// Picks `num_squares` of the 25 squares from a 32-byte hash, scanning once: each square is
/// picked with the probability that sampling without replacement would give it.
pub fn generate_random_mask(num_squares: u64, hash: &[u8; 32]) -> (r: [bool; 25])
    requires
        num_squares <= 25,
    ensures
        forall|i: int| 0 <= i < 25 ==> r@[i] == picked(num_squares, hash@, i),
        picked_count(num_squares, hash@, 25) == num_squares,
{
    let mut mask = [false; 25];
    let mut selected: u64 = 0;
    let mut i: usize = 0;
    while i < 25
        invariant
            i <= 25,
            num_squares <= 25,
            selected == picked_count(num_squares, hash@, i as int),
            selected <= num_squares,
            num_squares - selected <= 25 - i,
            forall|j: int| 0 <= j < i ==> mask@[j] == picked(num_squares, hash@, j),
            forall|j: int| i <= j < 25 ==> !mask@[j],
        decreases 25 - i,
    {
        if selected < num_squares {
            let rand_byte = hash[i % 32];
            let remaining_needed = num_squares - selected;
            let remaining_positions = (25 - i) as u64;
            assert(rand_byte * remaining_positions <= 255 * 25) by (nonlinear_arith)
                requires rand_byte < 256, remaining_positions <= 25;
            if (rand_byte as u64) * remaining_positions < remaining_needed * 256 {
                mask[i] = true;
                selected = selected + 1;
            } else {
                assert(remaining_needed < remaining_positions) by (nonlinear_arith)
                    requires
                        rand_byte < 256,
                        rand_byte * remaining_positions >= remaining_needed * 256,
                        remaining_needed > 0,
                ;
            }
        }
        i = i + 1;
    }
    mask
}

/// Whether bit `i` of `mask` is set.
pub open spec fn bit_set(mask: u64, i: int) -> bool {
    mask & (1u64 << (i as u64)) != 0
}

/// The squares whose bits are set in `mask`.
pub fn mask_squares(mask: u64) -> (r: [bool; 25])
    ensures
        forall|i: int| 0 <= i < 25 ==> r@[i] == bit_set(mask, i),
{
    let mut r = [false; 25];
    let mut i: usize = 0;
    while i < 25
        invariant
            i <= 25,
            forall|j: int| 0 <= j < i ==> r@[j] == bit_set(mask, j),
        decreases 25 - i,
    {
        r[i] = mask & (1u64 << (i as u64)) != 0;
        i = i + 1;
    }
    r
}

/// The digest that seeds the random strategy: Keccak-256 of the participant's address and
/// the round number's little-endian bytes.
pub open spec fn selection_hash(authority: Address, round_id: u64) -> Seq<u8> {
    keccak256_of(authority.bytes@ + le_bytes_of(round_id))
}

/// How many squares the random strategy asks for: the mask's low byte, at most 25.
pub open spec fn random_count(mask: u64) -> u64 {
    if (mask & 0xff) <= 25 {
        mask & 0xff
    } else {
        25
    }
}

/// The squares the random strategy picks for `authority` in round `round_id`.
pub fn random_squares(authority: &Address, round_id: u64, mask: u64) -> (r: [bool; 25])
    ensures
        forall|i: int|
            0 <= i < 25 ==> r@[i] == picked(
                random_count(mask),
                selection_hash(*authority, round_id),
                i,
            ),
{
    let wanted = mask & 0xff;
    let num_squares = if wanted <= 25 {
        wanted
    } else {
        25
    };
    let id_bytes = le_bytes(round_id);
    let hash = keccak_hashv(&authority.bytes, &id_bytes);
    generate_random_mask(num_squares, &hash)
}

/// The squares an automation deploys on in round `round_id`.
pub open spec fn automation_squares_of(a: Automation, round_id: u64, i: int) -> bool {
    if a.strategy == 1 {
        bit_set(a.mask, i)
    } else {
        picked(random_count(a.mask), selection_hash(a.authority, round_id), i)
    }
}

impl Automation {
    /// The squares this automation deploys on in round `round_id`: those of the mask for
    /// the preferred strategy, a keyed random pick otherwise.
    pub fn squares(&self, round_id: u64) -> (r: [bool; 25])
        ensures
            forall|i: int| 0 <= i < 25 ==> r@[i] == automation_squares_of(*self, round_id, i),
    {
        match AutomationStrategy::from_u64(self.strategy) {
            AutomationStrategy::Preferred => mask_squares(self.mask),
            AutomationStrategy::Random => random_squares(&self.authority, round_id, self.mask),
        }
    }
}

/// Settings of an automation.
#[derive(Clone, Copy, Debug)]
pub struct AutomateArgs {
    pub amount: u64,
    pub deposit: u64,
    pub fee: u64,
    pub mask: u64,
    pub strategy: u8,
}

/// What configuring an automation asks of the outside world.
#[derive(Clone, Copy, Debug, PartialEq, Eq, Structural)]
pub enum AutomateOutcome {
    /// The automation is closed: its record's funds go back to the participant and its data
    /// is cleared.
    Closed,
    /// The automation is configured: move `deposit` into it and `checkpoint_fee` into the
    /// miner's record.
    Configured { deposit: u64, checkpoint_fee: u64 },
}

/// Configures the automation of `authority`. A zero executor closes it instead. A record
/// without owner is taken by `authority`, as is a miner without owner; otherwise both must
/// belong to `authority`. The settings are replaced, the deposit joins the balance, and the
/// miner's checkpoint fee is topped up when empty.
pub fn automate(
    automation: &mut Automation,
    miner: &mut Miner,
    authority: &Address,
    executor: &Address,
    args: &AutomateArgs,
) -> (r: Result<AutomateOutcome, AppError>)
    ensures
        r is Err ==> *final(automation) == *old(automation) && *final(miner) == *old(miner),
        executor.bytes@ == crate::address::zero_bytes() ==> {
            &&& old(automation).authority.bytes@ == authority.bytes@ ==> r == Ok::<
                AutomateOutcome,
                AppError,
            >(AutomateOutcome::Closed)
            &&& old(automation).authority.bytes@ != authority.bytes@ ==> r == Err::<
                AutomateOutcome,
                AppError,
            >(AppError::NotAuthorized)
            &&& *final(automation) == *old(automation) && *final(miner) == *old(miner)
        },
        executor.bytes@ != crate::address::zero_bytes() ==> {
            let a_owned = old(automation).authority.bytes@ == crate::address::zero_bytes()
                || old(automation).authority.bytes@ == authority.bytes@;
            let m_owned = old(miner).authority.bytes@ == crate::address::zero_bytes()
                || old(miner).authority.bytes@ == authority.bytes@;
            let start = if old(automation).authority.bytes@ == crate::address::zero_bytes() {
                0
            } else {
                old(automation).balance as int
            };
            if !a_owned || !m_owned {
                r == Err::<AutomateOutcome, AppError>(AppError::NotAuthorized)
            } else if start + args.deposit > u64::MAX {
                r == Err::<AutomateOutcome, AppError>(AppError::Overflow)
            } else {
                &&& r == Ok::<AutomateOutcome, AppError>(
                    AutomateOutcome::Configured {
                        deposit: args.deposit,
                        checkpoint_fee: if old(miner).authority.bytes@
                            == crate::address::zero_bytes() || old(miner).checkpoint_fee == 0 {
                            CHECKPOINT_FEE
                        } else {
                            0
                        },
                    },
                )
                &&& *final(automation) == (Automation {
                    amount: args.amount,
                    authority: *authority,
                    balance: (start + args.deposit) as u64,
                    executor: *executor,
                    fee: args.fee,
                    strategy: args.strategy as u64,
                    mask: args.mask,
                })
                &&& final(miner).authority == *authority
                &&& final(miner).checkpoint_fee == (if old(miner).checkpoint_fee == 0
                    || old(miner).authority.bytes@ == crate::address::zero_bytes() {
                    CHECKPOINT_FEE
                } else {
                    old(miner).checkpoint_fee
                })
                &&& old(miner).authority.bytes@ != crate::address::zero_bytes() ==> *final(miner)
                    == (Miner {
                    authority: *authority,
                    checkpoint_fee: final(miner).checkpoint_fee,
                    ..*old(miner)
                })
            }
        },
{
    if executor.is_zero() {
        if !automation.authority.same(authority) {
            return Err(AppError::NotAuthorized);
        }
        return Ok(AutomateOutcome::Closed);
    }
    let mut a = *automation;
    if a.authority.is_zero() {
        a.authority = *authority;
        a.balance = 0;
    } else if !a.authority.same(authority) {
        return Err(AppError::NotAuthorized);
    }
    let mut m = *miner;
    if m.authority.is_zero() {
        m = Miner::new(*authority);
    } else if !m.authority.same(authority) {
        return Err(AppError::NotAuthorized);
    }
    a.amount = args.amount;
    a.executor = *executor;
    a.fee = args.fee;
    a.mask = args.mask;
    a.strategy = args.strategy as u64;
    a.balance = match a.balance.checked_add(args.deposit) {
        Some(v) => v,
        None => {
            return Err(AppError::Overflow);
        },
    };
    let mut fee_due: u64 = 0;
    if m.checkpoint_fee == 0 {
        m.checkpoint_fee = CHECKPOINT_FEE;
        fee_due = CHECKPOINT_FEE;
    }
    a.authority = *authority;
    m.authority = *authority;
    *automation = a;
    *miner = m;
    Ok(AutomateOutcome::Configured { deposit: args.deposit, checkpoint_fee: fee_due })
}

/// Cancels the automation of `authority`, which must own it; returns the balance handed
/// back.
pub fn cancel_automate(automation: &Automation, authority: &Address) -> (r: Result<u64, AppError>)
    ensures
        automation.authority.bytes@ == authority.bytes@ ==> r == Ok::<u64, AppError>(
            automation.balance,
        ),
        automation.authority.bytes@ != authority.bytes@ ==> r == Err::<u64, AppError>(
            AppError::NotAuthorized,
        ),
{
    if !automation.authority.same(authority) {
        return Err(AppError::NotAuthorized);
    }
    Ok(automation.balance)
}

} // verus!
