use vstd::prelude::*;

use crate::errors::AppError;
use crate::numeric::{fits_i128, mul_raw, Numeric, SCALE};

verus! {

/// What a participant is owed when the pool's factor stands at `global`, the participant
/// last saw `last`, and carries `weight`: the factor's growth times the weight, rounded
/// down. Nothing is owed unless the factor grew.
pub open spec fn accrual(global: int, last: int, weight: u64) -> int {
    if global > last {
        ((global - last) * weight) / (SCALE as int)
    } else {
        0
    }
}

/// Whether settling against `global` can be computed: the growth and its product with
/// the weight fit in the fixed-point range, and the amount owed fits in a `u64`.
pub open spec fn accrual_fits(global: int, last: int, weight: u64) -> bool {
    global > last ==> {
        &&& fits_i128(global - last)
        &&& fits_i128((global - last) * weight)
        &&& accrual(global, last, weight) <= u64::MAX
    }
}

/// The amount owed to a participant who last saw factor `last` and carries `weight`, now
/// that the pool's factor is `global`; `Overflow` when it cannot be computed. The growth
/// of the factor is never negative: only a factor above `last` is settled.
pub fn settle(global: Numeric, last: Numeric, weight: u64) -> (r: Result<u64, AppError>)
    ensures
        accrual_fits(global@, last@, weight) ==> r == Ok::<u64, AppError>(
            accrual(global@, last@, weight) as u64,
        ),
        !accrual_fits(global@, last@, weight) ==> r == Err::<u64, AppError>(AppError::Overflow),
{
    if global.raw() <= last.raw() {
        return Ok(0);
    }
    let delta = match global.checked_sub(last) {
        Some(d) => d,
        None => {
            return Err(AppError::Overflow);
        },
    };
    proof {
        // The factor never regresses here: a negative growth is impossible.
        assert(delta@ > 0);
    }
    let w = Numeric::from_u64(weight);
    proof {
        lemma_scaled_weight(delta@, weight);
    }
    let personal = match delta.checked_mul(w) {
        Some(p) => p,
        None => {
            return Err(AppError::Overflow);
        },
    };
    match personal.checked_to_u64() {
        Some(v) => Ok(v),
        None => Err(AppError::Overflow),
    }
}

proof fn lemma_scaled_weight(d: int, weight: u64)
    requires
        d > 0,
    ensures
        mul_raw(d, weight * SCALE) == d * weight,
        d * weight >= 0,
{
    let s = SCALE as int;
    assert(d * (weight * s) == (d * weight) * s) by (nonlinear_arith);
    assert(d * weight >= 0) by (nonlinear_arith)
        requires d > 0;
    vstd::arithmetic::div_mod::lemma_div_multiples_vanish(d * weight, s);
    assert(s * (d * weight) == (d * weight) * s) by (nonlinear_arith);
}

/// Growth of the factor never yields a negative amount owed.
pub proof fn lemma_accrual_nonnegative(global: int, last: int, weight: u64)
    ensures
        accrual(global, last, weight) >= 0,
{
    if global > last {
        assert((global - last) * weight >= 0) by (nonlinear_arith)
            requires global > last;
    }
}

/// The sum of a sequence of amounts.
pub open spec fn sum(s: Seq<u64>) -> int
    decreases s.len(),
{
    if s.len() == 0 {
        0
    } else {
        sum(s.drop_last()) + s.last()
    }
}

pub proof fn lemma_sum_nonnegative(s: Seq<u64>)
    ensures
        sum(s) >= 0,
    decreases s.len(),
{
    if s.len() > 0 {
        lemma_sum_nonnegative(s.drop_last());
    }
}

/// Replacing one entry changes the sum by the difference.
pub proof fn lemma_sum_update(s: Seq<u64>, i: int, v: u64)
    requires
        0 <= i < s.len(),
    ensures
        sum(s.update(i, v)) == sum(s) - s[i] + v,
    decreases s.len(),
{
    let t = s.update(i, v);
    if i == s.len() - 1 {
        assert(t.drop_last() =~= s.drop_last());
    } else {
        lemma_sum_update(s.drop_last(), i, v);
        assert(t.drop_last() =~= s.drop_last().update(i, v));
    }
}

/// A sum over a prefix grows by the next entry.
pub proof fn lemma_sum_prefix(s: Seq<u64>, i: int)
    requires
        0 <= i < s.len(),
    ensures
        sum(s.subrange(0, i + 1)) == sum(s.subrange(0, i)) + s[i],
{
    assert(s.subrange(0, i + 1).drop_last() =~= s.subrange(0, i));
}

/// No entry exceeds the sum.
pub proof fn lemma_sum_bounds_entry(s: Seq<u64>, i: int)
    requires
        0 <= i < s.len(),
    ensures
        s[i] <= sum(s),
    decreases s.len(),
{
    lemma_sum_nonnegative(s.drop_last());
    if i < s.len() - 1 {
        lemma_sum_bounds_entry(s.drop_last(), i);
    }
}

/// A sequence of zeros sums to zero.
pub proof fn lemma_sum_zeros(n: nat)
    ensures
        sum(Seq::new(n, |i: int| 0u64)) == 0,
    decreases n,
{
    if n > 0 {
        lemma_sum_zeros((n - 1) as nat);
        assert(Seq::new(n, |i: int| 0u64).drop_last() =~= Seq::new((n - 1) as nat, |i: int| 0u64));
    }
}

} // verus!
