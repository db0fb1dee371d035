use vstd::prelude::*;

verus! {

/// Implied decimal scale of a fixed-point value: twelve decimal digits.
pub const SCALE: i128 = 1_000_000_000_000;

/// `SCALE` as an unsigned value, for the magnitude arithmetic of `checked_mul`.
const USCALE: u128 = 1_000_000_000_000;

/// Division that rounds toward zero, as Rust's `/` on signed integers does.
pub open spec fn trunc_div(x: int, d: int) -> int {
    if x >= 0 {
        x / d
    } else {
        -((-x) / d)
    }
}

/// Whether an integer fits in an `i128`.
pub open spec fn fits_i128(x: int) -> bool {
    i128::MIN <= x <= i128::MAX
}

/// The raw value of the fixed-point product of two raw values.
pub open spec fn mul_raw(a: int, b: int) -> int {
    trunc_div(a * b, SCALE as int)
}

/// The raw value of `numerator / denominator`, zero for a zero denominator.
pub open spec fn fraction_raw(numerator: u64, denominator: u64) -> int {
    if denominator == 0 {
        0
    } else {
        (numerator * SCALE) / (denominator as int)
    }
}

/// A signed fixed-point number: the value is `raw / SCALE`, `raw` being an `i128`.
/// Its view is the raw integer.
#[derive(Clone, Copy, Debug, PartialEq, Eq, Structural)]
pub struct Numeric(i128);

impl View for Numeric {
    type V = int;

    closed spec fn view(&self) -> int {
        self.0 as int
    }
}

impl Numeric {
    pub fn zero() -> (r: Numeric)
        ensures
            r@ == 0,
    {
        Numeric(0)
    }

    /// The value one.
    pub fn one() -> (r: Numeric)
        ensures
            r@ == SCALE,
    {
        Numeric(SCALE)
    }

    /// Rebuilds a value from its persisted raw form.
    pub fn from_raw(raw: i128) -> (r: Numeric)
        ensures
            r@ == raw,
    {
        Numeric(raw)
    }

    /// The persisted raw form.
    pub fn raw(&self) -> (r: i128)
        ensures
            r == self@,
    {
        self.0
    }

    pub fn from_u64(value: u64) -> (r: Numeric)
        ensures
            r@ == value * SCALE,
    {
        Numeric((value as i128) * SCALE)
    }

    /// `numerator / denominator`, rounded down; zero when `denominator` is zero.
    pub fn from_fraction(numerator: u64, denominator: u64) -> (r: Numeric)
        ensures
            r@ == fraction_raw(numerator, denominator),
            r@ >= 0,
    {
        if denominator == 0 {
            return Numeric(0);
        }
        let n: i128 = (numerator as i128) * SCALE;
        assert(n / (denominator as i128) <= n) by (nonlinear_arith)
            requires n >= 0, denominator >= 1;
        let result: i128 = n / (denominator as i128);
        Numeric(result)
    }

    /// The integer part, rounded toward zero.
    pub fn to_u64(self) -> (r: u64)
        requires
            0 <= self@,
            self@ / (SCALE as int) <= u64::MAX,
        ensures
            r == self@ / (SCALE as int),
    {
        (self.0 / SCALE) as u64
    }

    /// The integer part, rounded toward zero, when it is non-negative and fits in a `u64`.
    pub fn checked_to_u64(self) -> (r: Option<u64>)
        ensures
            r == (if 0 <= self@ && self@ / (SCALE as int) <= u64::MAX {
                Some((self@ / (SCALE as int)) as u64)
            } else {
                None::<u64>
            }),
    {
        if self.0 < 0 {
            return None;
        }
        let q: i128 = self.0 / SCALE;
        if q > u64::MAX as i128 {
            None
        } else {
            Some(q as u64)
        }
    }

    pub fn add(self, other: Numeric) -> (r: Numeric)
        requires
            fits_i128(self@ + other@),
        ensures
            r@ == self@ + other@,
    {
        Numeric(self.0 + other.0)
    }

    pub fn sub(self, other: Numeric) -> (r: Numeric)
        requires
            fits_i128(self@ - other@),
        ensures
            r@ == self@ - other@,
    {
        Numeric(self.0 - other.0)
    }

    pub fn add_assign(&mut self, other: Numeric)
        requires
            fits_i128(old(self)@ + other@),
        ensures
            final(self)@ == old(self)@ + other@,
    {
        self.0 = self.0 + other.0;
    }

    pub fn sub_assign(&mut self, other: Numeric)
        requires
            fits_i128(old(self)@ - other@),
        ensures
            final(self)@ == old(self)@ - other@,
    {
        self.0 = self.0 - other.0;
    }

    /// The sum, or `None` when it leaves the `i128` range.
    pub fn checked_add(self, other: Numeric) -> (r: Option<Numeric>)
        ensures
            fits_i128(self@ + other@) ==> r.is_some() && r.unwrap()@ == self@ + other@,
            !fits_i128(self@ + other@) ==> r.is_none(),
    {
        match self.0.checked_add(other.0) {
            Some(v) => Some(Numeric(v)),
            None => None,
        }
    }

    /// The difference, or `None` when it leaves the `i128` range.
    pub fn checked_sub(self, other: Numeric) -> (r: Option<Numeric>)
        ensures
            fits_i128(self@ - other@) ==> r.is_some() && r.unwrap()@ == self@ - other@,
            !fits_i128(self@ - other@) ==> r.is_none(),
    {
        match self.0.checked_sub(other.0) {
            Some(v) => Some(Numeric(v)),
            None => None,
        }
    }

    /// The product rescaled by `SCALE`, rounded toward zero; `None` when it leaves the
    /// `i128` range. The intermediate product is never formed in 128 bits: each factor is
    /// split into its integer and fractional parts first.
    pub fn checked_mul(self, other: Numeric) -> (r: Option<Numeric>)
        ensures
            fits_i128(mul_raw(self@, other@)) ==> r.is_some() && r.unwrap()@ == mul_raw(
                self@,
                other@,
            ),
            !fits_i128(mul_raw(self@, other@)) ==> r.is_none(),
    {
        let a: u128 = magnitude(self.0);
        let b: u128 = magnitude(other.0);
        let negative: bool = (self.0 < 0) != (other.0 < 0);
        let m = scaled_product(a, b);
        proof {
            lemma_trunc_mul(self@, other@, a as int, b as int, negative);
        }
        match m {
            None => None,
            Some(m) => {
                if negative {
                    if m <= 0x8000_0000_0000_0000_0000_0000_0000_0000u128 {
                        let v: i128 = if m == 0x8000_0000_0000_0000_0000_0000_0000_0000u128 {
                            i128::MIN
                        } else {
                            -(m as i128)
                        };
                        Some(Numeric(v))
                    } else {
                        None
                    }
                } else {
                    if m <= i128::MAX as u128 {
                        Some(Numeric(m as i128))
                    } else {
                        None
                    }
                }
            },
        }
    }

    /// The product rescaled by `SCALE`, rounded toward zero.
    pub fn mul(self, other: Numeric) -> (r: Numeric)
        requires
            fits_i128(mul_raw(self@, other@)),
        ensures
            r@ == mul_raw(self@, other@),
    {
        match self.checked_mul(other) {
            Some(v) => v,
            None => Numeric(0),
        }
    }
}

impl Default for Numeric {
    fn default() -> (r: Numeric)
        ensures
            r@ == 0,
    {
        Numeric(0)
    }
}

fn magnitude(x: i128) -> (r: u128)
    ensures
        r == if x >= 0 { x as int } else { -(x as int) },
{
    if x >= 0 {
        x as u128
    } else if x == i128::MIN {
        0x8000_0000_0000_0000_0000_0000_0000_0000u128
    } else {
        (-x) as u128
    }
}

proof fn lemma_trunc_mul(x: int, y: int, a: int, b: int, negative: bool)
    requires
        a == (if x >= 0 { x } else { -x }),
        b == (if y >= 0 { y } else { -y }),
        negative == ((x < 0) != (y < 0)),
    ensures
        negative ==> mul_raw(x, y) == -((a * b) / (SCALE as int)),
        !negative ==> mul_raw(x, y) == (a * b) / (SCALE as int),
{
    let s = SCALE as int;
    assert(a * b >= 0) by (nonlinear_arith)
        requires a >= 0, b >= 0;
    if negative {
        assert(x * y == -(a * b)) by (nonlinear_arith)
            requires
                a == (if x >= 0 { x } else { -x }),
                b == (if y >= 0 { y } else { -y }),
                (x < 0) != (y < 0),
        ;
        if x * y == 0 {
            assert(a * b == 0);
            assert(0int / s == 0);
        }
    } else {
        assert(x * y == a * b) by (nonlinear_arith)
            requires
                a == (if x >= 0 { x } else { -x }),
                b == (if y >= 0 { y } else { -y }),
                (x < 0) == (y < 0),
        ;
    }
}

/// `floor(a * b / SCALE)` for magnitudes, or `None` when it exceeds `u128`.
fn scaled_product(a: u128, b: u128) -> (r: Option<u128>)
    ensures
        (a * b) / (USCALE as int) <= u128::MAX ==> r == Some(((a * b) / (USCALE as int)) as u128),
        (a * b) / (USCALE as int) > u128::MAX ==> r.is_none(),
{
    let a1: u128 = a / USCALE;
    let a0: u128 = a % USCALE;
    let b1: u128 = b / USCALE;
    let b0: u128 = b % USCALE;
    let ghost s = USCALE as int;
    proof {
        lemma_split_product(a as int, b as int, a1 as int, a0 as int, b1 as int, b0 as int);
    }
    let low: u128 = (a0 * b0) / USCALE;
    let t1 = match a1.checked_mul(b1) {
        Some(v) => v.checked_mul(USCALE),
        None => None,
    };
    let t2 = a1.checked_mul(b0);
    let t3 = a0.checked_mul(b1);
    match (t1, t2, t3) {
        (Some(t1), Some(t2), Some(t3)) => {
            let s1 = t1.checked_add(t2);
            match s1 {
                Some(s1) => {
                    let s2 = s1.checked_add(t3);
                    match s2 {
                        Some(s2) => s2.checked_add(low),
                        None => None,
                    }
                },
                None => None,
            }
        },
        _ => {
            proof {
                assert(a1 * b1 * s >= 0 && a1 * b0 >= 0 && a0 * b1 >= 0) by (nonlinear_arith)
                    requires a1 >= 0, b1 >= 0, b0 >= 0, a0 >= 0, s > 0;
                assert(a1 * b1 > u128::MAX ==> a1 * b1 * s > u128::MAX) by (nonlinear_arith)
                    requires s >= 1;
            }
            None
        },
    }
}

proof fn lemma_split_product(a: int, b: int, a1: int, a0: int, b1: int, b0: int)
    requires
        a >= 0,
        b >= 0,
        a1 == a / (USCALE as int),
        a0 == a % (USCALE as int),
        b1 == b / (USCALE as int),
        b0 == b % (USCALE as int),
    ensures
        0 <= a0 < USCALE,
        0 <= b0 < USCALE,
        0 <= a0 * b0 < USCALE * USCALE,
        (a * b) / (USCALE as int) == a1 * b1 * (USCALE as int) + a1 * b0 + a0 * b1 + (a0 * b0)
            / (USCALE as int),
{
    let s = USCALE as int;
    assert(a == a1 * s + a0 && 0 <= a0 < s) by {
        vstd::arithmetic::div_mod::lemma_fundamental_div_mod(a, s);
    }
    assert(b == b1 * s + b0 && 0 <= b0 < s) by {
        vstd::arithmetic::div_mod::lemma_fundamental_div_mod(b, s);
    }
    assert(0 <= a0 * b0 < s * s) by (nonlinear_arith)
        requires 0 <= a0 < s, 0 <= b0 < s;
    let high = a1 * b1 * s + a1 * b0 + a0 * b1;
    assert(a * b == a1 * s * b + a0 * b) by (nonlinear_arith)
        requires a == a1 * s + a0;
    assert(a1 * s * b == a1 * b1 * s * s + a1 * b0 * s) by (nonlinear_arith)
        requires b == b1 * s + b0;
    assert(a0 * b == a0 * b1 * s + a0 * b0) by (nonlinear_arith)
        requires b == b1 * s + b0;
    assert(high * s == a1 * b1 * s * s + a1 * b0 * s + a0 * b1 * s) by (nonlinear_arith)
        requires high == a1 * b1 * s + a1 * b0 + a0 * b1;
    let c = a0 * b0;
    let q = c / s;
    let rem = c % s;
    vstd::arithmetic::div_mod::lemma_fundamental_div_mod(c, s);
    assert(high * s + c == s * (high + q) + rem) by (nonlinear_arith)
        requires c == s * q + rem;
    vstd::arithmetic::div_mod::lemma_div_multiples_vanish_fancy(high + q, rem, s);
}

} // verus!
