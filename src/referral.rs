use vstd::prelude::*;

use crate::address::Address;
use crate::constants::REFERRAL_FEE_BPS;
use crate::errors::AppError;

verus! {

/// A referee's registration and the rewards owed to its referrer.
#[derive(Clone, Copy, Debug)]
pub struct Referral {
    /// The referee.
    pub authority: Address,
    /// Who referred the referee.
    pub referrer: Address,
    /// Tokens owed to the referrer and not yet claimed.
    pub pending_rewards: u64,
    /// Tokens the referrer has claimed.
    pub claimed_rewards: u64,
    /// When the referral was registered.
    pub created_at: i64,
}

/// The referral fee on a token reward: one percent, rounded down.
pub open spec fn referral_fee_of(reward: u64) -> int {
    (reward * REFERRAL_FEE_BPS) / 10_000
}

/// The referral fee on a token reward, and what is left for the referee.
pub fn split_referral_fee(reward: u64) -> (r: (u64, u64))
    ensures
        r.0 == referral_fee_of(reward),
        r.1 == reward - referral_fee_of(reward),
        r.0 + r.1 == reward,
{
    let fee = reward / 100;
    (fee, reward - fee)
}

/// The fee never exceeds one percent of the reward and rounds down to whole units.
pub proof fn lemma_referral_fee(reward: u64)
    ensures
        referral_fee_of(reward) == reward / 100,
        100 * referral_fee_of(reward) <= reward < 100 * referral_fee_of(reward) + 100,
{
}

impl Referral {
    /// Registers `referrer` as the referrer of `authority` at time `now`; nobody refers
    /// themselves.
    pub fn register(authority: Address, referrer: Address, now: i64) -> (r: Result<
        Referral,
        AppError,
    >)
        ensures
            authority.bytes@ == referrer.bytes@ ==> r == Err::<Referral, AppError>(
                AppError::SelfReferral,
            ),
            authority.bytes@ != referrer.bytes@ ==> r == Ok::<Referral, AppError>(
                Referral {
                    authority,
                    referrer,
                    pending_rewards: 0,
                    claimed_rewards: 0,
                    created_at: now,
                },
            ),
    {
        if authority.same(&referrer) {
            return Err(AppError::SelfReferral);
        }
        Ok(Referral { authority, referrer, pending_rewards: 0, claimed_rewards: 0, created_at: now })
    }
}

/// The total pending over the first `n` referrals.
pub open spec fn pending_total(rs: Seq<Referral>, n: int) -> int
    decreases n,
{
    if n <= 0 {
        0
    } else {
        pending_total(rs, n - 1) + rs[n - 1].pending_rewards
    }
}

/// Whether every referral names `referrer` as its referrer.
pub open spec fn all_referred_by(rs: Seq<Referral>, referrer: Address) -> bool {
    forall|i: int| 0 <= i < rs.len() ==> (#[trigger] rs[i]).referrer.bytes@ == referrer.bytes@
}

/// Whether no claimed balance would overflow.
pub open spec fn claims_fit(rs: Seq<Referral>) -> bool {
    forall|i: int|
        0 <= i < rs.len() ==> (#[trigger] rs[i]).claimed_rewards + rs[i].pending_rewards
            <= u64::MAX
}

/// Why a claim over `rs` by `referrer` fails, if it does.
pub open spec fn claim_referral_error(rs: Seq<Referral>, referrer: Address) -> Option<AppError> {
    if rs.len() == 0 {
        Some(AppError::InvalidAmount)
    } else if !all_referred_by(rs, referrer) {
        Some(AppError::InvalidReferral)
    } else if !claims_fit(rs) || pending_total(rs, rs.len() as int) > u64::MAX {
        Some(AppError::Overflow)
    } else if pending_total(rs, rs.len() as int) == 0 {
        Some(AppError::InvalidAmount)
    } else {
        None
    }
}

/// A referrer claims the pending rewards of several referrals at once. Each referral must
/// name `referrer`, and something must be pending. Each pending balance moves to the claimed
/// balance; the total is returned for payment. A refused claim changes nothing.
pub fn claim_referral_rewards(referrals: &mut Vec<Referral>, referrer: &Address) -> (r: Result<
    u64,
    AppError,
>)
    ensures
        claim_referral_error(old(referrals)@, *referrer) matches Some(e) ==> r == Err::<
            u64,
            AppError,
        >(e) && final(referrals)@ == old(referrals)@,
        claim_referral_error(old(referrals)@, *referrer) is None ==> {
            &&& r == Ok::<u64, AppError>(
                pending_total(old(referrals)@, old(referrals)@.len() as int) as u64,
            )
            &&& final(referrals)@.len() == old(referrals)@.len()
            &&& forall|i: int|
                0 <= i < old(referrals)@.len() ==> (#[trigger] final(referrals)@[i]) == (Referral {
                    pending_rewards: 0,
                    claimed_rewards: (old(referrals)@[i].claimed_rewards + old(
                        referrals,
                    )@[i].pending_rewards) as u64,
                    ..old(referrals)@[i]
                })
        },
{
    let n = referrals.len();
    if n == 0 {
        return Err(AppError::InvalidAmount);
    }
    let mut j0: usize = 0;
    while j0 < n
        invariant
            n == referrals@.len(),
            j0 <= n,
            forall|j: int| 0 <= j < j0 ==> (#[trigger] referrals@[j]).referrer.bytes@ == referrer.bytes@,
        decreases n - j0,
    {
        if !referrals[j0].referrer.same(referrer) {
            return Err(AppError::InvalidReferral);
        }
        j0 = j0 + 1;
    }
    let mut total: u64 = 0;
    let mut i: usize = 0;
    let mut overflow = false;
    while i < n
        invariant
            n == referrals@.len(),
            i <= n,
            all_referred_by(referrals@, *referrer),
            forall|j: int|
                0 <= j < i ==> (#[trigger] referrals@[j]).claimed_rewards + referrals@[j].pending_rewards
                    <= u64::MAX,
            !overflow ==> total == pending_total(referrals@, i as int),
            overflow ==> pending_total(referrals@, i as int) > u64::MAX,
        decreases n - i,
    {
        let rf = referrals[i];
        if rf.claimed_rewards > u64::MAX - rf.pending_rewards {
            proof {
                assert(!claims_fit(referrals@));
            }
            return Err(AppError::Overflow);
        }
        if !overflow {
            match total.checked_add(rf.pending_rewards) {
                Some(v) => {
                    total = v;
                },
                None => {
                    overflow = true;
                },
            }
        }
        i = i + 1;
    }
    if overflow {
        return Err(AppError::Overflow);
    }
    if total == 0 {
        return Err(AppError::InvalidAmount);
    }
    let ghost before = referrals@;
    let mut k: usize = 0;
    while k < n
        invariant
            n == referrals@.len(),
            n == before.len(),
            k <= n,
            claims_fit(before),
            forall|j: int|
                0 <= j < k ==> (#[trigger] referrals@[j]) == (Referral {
                    pending_rewards: 0,
                    claimed_rewards: (before[j].claimed_rewards + before[j].pending_rewards) as u64,
                    ..before[j]
                }),
            forall|j: int| k <= j < n ==> (#[trigger] referrals@[j]) == before[j],
        decreases n - k,
    {
        let mut rf = referrals[k];
        assert(rf == before[k as int]);
        rf.claimed_rewards = rf.claimed_rewards + rf.pending_rewards;
        rf.pending_rewards = 0;
        referrals.set(k, rf);
        k = k + 1;
    }
    Ok(total)
}

} // verus!
