//! The fixed-point scalar underlying every tuple component.
//!
//! A [`Scalar`] stores a signed count of millionths, so `1.0` is
//! [`SCALE`] units. Multiplication and division rescale their result and
//! truncate toward zero, the way hardware fixed-point arithmetic does;
//! [`tdiv`] is the spec-level account of that truncating division.

use vstd::arithmetic::div_mod::{
    lemma_div_nonincreasing, lemma_div_pos_is_pos, lemma_fundamental_div_mod,
    lemma_mod_division_less_than_divisor,
};
use vstd::prelude::*;

verus! {

/// Units per 1.0: a `Scalar` counts millionths.
pub const SCALE: i64 = 1_000_000;

/// Two scalars count as equal when they differ by fewer than this many
/// units, a tolerance of 1e-5.
pub const EPSILON_UNITS: i64 = 10;

/// Largest unit count the multiplicative operations accept (one million in
/// ordinary terms); it keeps every intermediate product inside 128 bits.
pub const MAX_UNITS: i64 = 1_000_000_000_000;

/// A fixed-point number: `units` is the value scaled by [`SCALE`] and
/// rounded toward zero.
#[derive(Clone, Copy, PartialEq, Eq, Debug)]
pub struct Scalar {
    pub units: i64,
}

impl View for Scalar {
    type V = int;

    open spec fn view(&self) -> int {
        self.units as int
    }
}

/// The magnitude of an integer.
pub open spec fn abs_val(a: int) -> int {
    if a >= 0 {
        a
    } else {
        -a
    }
}

/// Division truncating toward zero, as the machine's signed division does;
/// Verus's own `/` on `int` rounds toward negative infinity instead.
pub open spec fn tdiv(a: int, d: int) -> int {
    if a >= 0 && d >= 0 {
        a / d
    } else if a < 0 && d >= 0 {
        -((-a) / d)
    } else if a >= 0 {
        -(a / (-d))
    } else {
        (-a) / (-d)
    }
}

/// Whether a componentwise sum stays representable.
pub open spec fn sum_fits(a: int, b: int) -> bool {
    i64::MIN <= a + b <= i64::MAX
}

/// Whether a componentwise difference stays representable.
pub open spec fn diff_fits(a: int, b: int) -> bool {
    i64::MIN <= a - b <= i64::MAX
}

/// Approximate equality of unit counts: within [`EPSILON_UNITS`], strictly.
pub open spec fn near(a: int, b: int) -> bool {
    -(EPSILON_UNITS as int) < a - b < EPSILON_UNITS as int
}

/// Unit counts accepted by the multiplicative operations.
pub open spec fn in_units_range(a: int) -> bool {
    -(MAX_UNITS as int) <= a <= MAX_UNITS as int
}

/// The product of two scalars, in units: multiply the counts, then scale
/// back down, truncating toward zero.
pub open spec fn mul_units(a: int, b: int) -> int {
    tdiv(a * b, SCALE as int)
}

/// The quotient of two scalars, in units: scale the numerator up, then
/// divide, truncating toward zero.
pub open spec fn div_units(a: int, b: int) -> int {
    tdiv(a * SCALE, b)
}

/// Truncating division shrinks magnitudes: the quotient times the (positive)
/// divisor stays within the dividend, and misses it by less than one divisor.
pub proof fn lemma_tdiv_bounds(a: int, d: int)
    requires
        d > 0,
    ensures
        0 <= abs_val(tdiv(a, d)),
        abs_val(tdiv(a, d)) * d <= abs_val(a),
        abs_val(a) < (abs_val(tdiv(a, d)) + 1) * d,
        a >= 0 ==> tdiv(a, d) >= 0,
        a <= 0 ==> tdiv(a, d) <= 0,
{
    let n = abs_val(a);
    let q = n / d;
    lemma_div_pos_is_pos(n, d);
    lemma_fundamental_div_mod(n, d);
    lemma_mod_division_less_than_divisor(n, d);
    assert(q * d <= n && n < (q + 1) * d) by (nonlinear_arith)
        requires
            n == d * q + n % d,
            0 <= n % d < d,
    ;
    assert(abs_val(tdiv(a, d)) == q);
}

/// Negating the dividend negates the truncating quotient.
pub proof fn lemma_tdiv_neg(a: int, d: int)
    requires
        d > 0,
    ensures
        tdiv(-a, d) == -tdiv(a, d),
{
}

/// A quotient of nonnegative numbers is bounded by any `b` with `n <= b * d`.
pub proof fn lemma_div_bound(n: int, d: int, b: int)
    requires
        0 <= n,
        d > 0,
        0 <= b,
        n <= b * d,
    ensures
        0 <= n / d <= b,
{
    lemma_div_pos_is_pos(n, d);
    lemma_fundamental_div_mod(n, d);
    lemma_mod_division_less_than_divisor(n, d);
    assert(n / d <= b) by (nonlinear_arith)
        requires
            n == d * (n / d) + n % d,
            0 <= n % d < d,
            n <= b * d,
            0 <= b,
            d > 0,
    ;
}

/// Divides a raw double-width product by [`SCALE`], truncating toward zero:
/// the step that brings a product of unit counts back to units.
pub(crate) fn scale_down(p: i128) -> (r: i64)
    requires
        -3_000_000_000_000_000_000_000_000 <= p <= 3_000_000_000_000_000_000_000_000,
    ensures
        r as int == tdiv(p as int, SCALE as int),
{
    if p >= 0 {
        proof {
            lemma_div_bound(p as int, SCALE as int, 3_000_000_000_000_000_000);
        }
        let q: u128 = (p as u128) / (SCALE as u128);
        q as i64
    } else {
        proof {
            lemma_div_bound(-p as int, SCALE as int, 3_000_000_000_000_000_000);
        }
        let q: u128 = ((-p) as u128) / (SCALE as u128);
        -(q as i64)
    }
}

/// Squares a unit count in double width; bounded operands keep the square
/// at or below the square of [`MAX_UNITS`].
pub(crate) fn sq_i128(a: i64) -> (r: i128)
    requires
        in_units_range(a as int),
    ensures
        r as int == (a as int) * (a as int),
        0 <= r <= 1_000_000_000_000_000_000_000_000,
{
    let w: i128 = a as i128;
    proof {
        assert(0 <= w * w <= 1_000_000_000_000_000_000_000_000) by (nonlinear_arith)
            requires
                -1_000_000_000_000 <= w <= 1_000_000_000_000,
        ;
    }
    w * w
}

impl Scalar {
    /// The scalar holding exactly this many units.
    pub fn from_units(units: i64) -> (r: Scalar)
        ensures
            r@ == units,
    {
        Scalar { units }
    }

    /// Zero.
    pub fn zero() -> (r: Scalar)
        ensures
            r@ == 0,
    {
        Scalar { units: 0 }
    }

    /// One, that is [`SCALE`] units.
    pub fn one() -> (r: Scalar)
        ensures
            r@ == SCALE,
    {
        Scalar { units: SCALE }
    }

    /// Exact sum.
    pub fn add(self, rhs: Scalar) -> (r: Scalar)
        requires
            i64::MIN <= self@ + rhs@ <= i64::MAX,
        ensures
            r@ == self@ + rhs@,
    {
        Scalar { units: self.units + rhs.units }
    }

    /// Exact difference.
    pub fn sub(self, rhs: Scalar) -> (r: Scalar)
        requires
            i64::MIN <= self@ - rhs@ <= i64::MAX,
        ensures
            r@ == self@ - rhs@,
    {
        Scalar { units: self.units - rhs.units }
    }

    /// Exact negation.
    pub fn neg(self) -> (r: Scalar)
        requires
            i64::MIN < self@,
        ensures
            r@ == -self@,
    {
        Scalar { units: -self.units }
    }

    /// Fixed-point product, truncating toward zero.
    pub fn mul(self, rhs: Scalar) -> (r: Scalar)
        requires
            in_units_range(self@),
            in_units_range(rhs@),
        ensures
            r@ == mul_units(self@, rhs@),
    {
        let a: i128 = self.units as i128;
        let b: i128 = rhs.units as i128;
        proof {
            assert(-(MAX_UNITS as int) * (MAX_UNITS as int) <= a * b <= (MAX_UNITS as int) * (
            MAX_UNITS as int)) by (nonlinear_arith)
                requires
                    -(MAX_UNITS as int) <= a <= MAX_UNITS as int,
                    -(MAX_UNITS as int) <= b <= MAX_UNITS as int,
            ;
        }
        let p: i128 = a * b;
        Scalar { units: scale_down(p) }
    }

    /// Fixed-point quotient, truncating toward zero. The divisor must not
    /// be zero: there is no representation for the infinities an overflowing
    /// division would call for.
    pub fn div(self, rhs: Scalar) -> (r: Scalar)
        requires
            in_units_range(self@),
            rhs@ != 0,
        ensures
            r@ == div_units(self@, rhs@),
    {
        let n: i128 = (self.units as i128) * (SCALE as i128);
        let d: i128 = rhs.units as i128;
        let na: u128 = if n >= 0 {
            n as u128
        } else {
            (-n) as u128
        };
        let da: u128 = if d >= 0 {
            d as u128
        } else {
            (-d) as u128
        };
        proof {
            lemma_div_pos_is_pos(na as int, da as int);
            lemma_div_nonincreasing(na as int, da as int);
        }
        let q: u128 = na / da;
        let neg: bool = (n < 0) != (d < 0);
        proof {
            if neg {
                assert(-(q as int) == tdiv(self@ * SCALE, rhs@));
            } else {
                assert(q as int == tdiv(self@ * SCALE, rhs@));
            }
        }
        if neg {
            Scalar { units: -(q as i64) }
        } else {
            Scalar { units: q as i64 }
        }
    }

    /// Whether the two scalars differ by fewer than [`EPSILON_UNITS`] units.
    pub fn approx_eq(self, rhs: Scalar) -> (r: bool)
        ensures
            r == near(self@, rhs@),
    {
        let d: i128 = (self.units as i128) - (rhs.units as i128);
        -(EPSILON_UNITS as i128) < d && d < EPSILON_UNITS as i128
    }
}

} // verus!
