//! Points, vectors, colors and the generic four-tuple, with their algebra.
//!
//! Each kind is its own type, so the combination table is enforced by the
//! signatures: adding two points or subtracting a point from a vector cannot
//! be written. A point carries an implicit discriminant of one, a vector an
//! implicit discriminant of zero; only the generic [`Tuple`] stores its
//! discriminant `w` explicitly.

use crate::scalar::{
    abs_val, diff_fits, div_units, in_units_range, lemma_div_bound, mul_units, near, scale_down,
    sq_i128, sum_fits, tdiv, Scalar, MAX_UNITS, SCALE,
};
use crate::sqrt::{isqrt, lemma_sq_lt, lemma_sq_pos, sqrt_floor};
use vstd::prelude::*;

verus! {

/// A generic four-tuple with an arbitrary discriminant `w`; the shape that
/// mixed sums and differences fall into.
#[derive(Clone, Copy, Debug)]
pub struct Tuple {
    pub x: Scalar,
    pub y: Scalar,
    pub z: Scalar,
    pub w: Scalar,
}

/// A position in space: a tuple whose discriminant is fixed at one.
#[derive(Clone, Copy, Debug)]
pub struct Point {
    pub x: Scalar,
    pub y: Scalar,
    pub z: Scalar,
}

/// A displacement with direction and magnitude: a tuple whose discriminant
/// is fixed at zero.
#[derive(Clone, Copy, Debug)]
pub struct Vector {
    pub x: Scalar,
    pub y: Scalar,
    pub z: Scalar,
}

/// Red, green and blue intensities; shares the componentwise arithmetic but
/// none of the geometry.
#[derive(Clone, Copy, Debug)]
pub struct Color {
    pub red: Scalar,
    pub green: Scalar,
    pub blue: Scalar,
}

/// Access to the raw components, discriminant last where there is one.
pub trait Value {
    /// The components in units, as the executable `value` returns them.
    spec fn vals(&self) -> Seq<int>;

    /// The components as scalars, discriminant last where there is one.
    fn value(&self) -> (v: Vec<Scalar>)
        ensures
            v@.len() == self.vals().len(),
            forall|i: int| 0 <= i < v@.len() ==> #[trigger] v@[i]@ == self.vals()[i],
    ;
}

/// Componentwise approximate equality of points.
pub open spec fn point_near(a: Point, b: Point) -> bool {
    near(a.x@, b.x@) && near(a.y@, b.y@) && near(a.z@, b.z@)
}

/// Componentwise approximate equality of vectors.
pub open spec fn vector_near(a: Vector, b: Vector) -> bool {
    near(a.x@, b.x@) && near(a.y@, b.y@) && near(a.z@, b.z@)
}

/// Componentwise approximate equality of generic tuples, discriminant included.
pub open spec fn tuple_near(a: Tuple, b: Tuple) -> bool {
    near(a.x@, b.x@) && near(a.y@, b.y@) && near(a.z@, b.z@) && near(a.w@, b.w@)
}

/// Componentwise approximate equality of colors.
pub open spec fn color_near(a: Color, b: Color) -> bool {
    near(a.red@, b.red@) && near(a.green@, b.green@) && near(a.blue@, b.blue@)
}

/// Extra precision carried through normalization: the magnitude is taken at
/// this factor (2^20) above unit resolution, so that dividing by it loses
/// far less than one unit per component.
pub const NORM_PREC: i64 = 1_048_576;

/// The squared length of a component triple, in squared units.
pub open spec fn mag_sq_units(x: int, y: int, z: int) -> int {
    x * x + y * y + z * z
}

/// The magnitude of a vector, in units: the rounded-down square root of the
/// squared length. The discriminant, always zero here, contributes nothing.
pub open spec fn magnitude_units(v: Vector) -> int {
    sqrt_floor(mag_sq_units(v.x@, v.y@, v.z@))
}

/// The denominator normalization divides by: the magnitude carried at
/// [`NORM_PREC`] times unit resolution.
pub open spec fn norm_den_units(v: Vector) -> int {
    sqrt_floor(mag_sq_units(v.x@, v.y@, v.z@) * (NORM_PREC as int * NORM_PREC as int))
}

/// One normalized component in units: the component, scaled up by both
/// [`SCALE`] and [`NORM_PREC`], divided by the high-precision magnitude.
pub open spec fn norm_comp_units(c: int, den: int) -> int {
    tdiv(c * SCALE * NORM_PREC, den)
}

/// First component of the normalized vector, in units.
pub open spec fn normalize_x_units(v: Vector) -> int {
    norm_comp_units(v.x@, norm_den_units(v))
}

/// Second component of the normalized vector, in units.
pub open spec fn normalize_y_units(v: Vector) -> int {
    norm_comp_units(v.y@, norm_den_units(v))
}

/// Third component of the normalized vector, in units.
pub open spec fn normalize_z_units(v: Vector) -> int {
    norm_comp_units(v.z@, norm_den_units(v))
}

/// The dot product in units: the sum of the componentwise products, scaled
/// back down. The discriminants take no part in it.
pub open spec fn dot_units(a: Vector, b: Vector) -> int {
    tdiv(a.x@ * b.x@ + a.y@ * b.y@ + a.z@ * b.z@, SCALE as int)
}

/// First component of the cross product, in units.
pub open spec fn cross_x_units(a: Vector, b: Vector) -> int {
    tdiv(a.y@ * b.z@ - a.z@ * b.y@, SCALE as int)
}

/// Second component of the cross product, in units.
pub open spec fn cross_y_units(a: Vector, b: Vector) -> int {
    tdiv(a.z@ * b.x@ - a.x@ * b.z@, SCALE as int)
}

/// Third component of the cross product, in units.
pub open spec fn cross_z_units(a: Vector, b: Vector) -> int {
    tdiv(a.x@ * b.y@ - a.y@ * b.x@, SCALE as int)
}

impl Tuple {
    /// A generic tuple from its four components.
    pub fn new(x: Scalar, y: Scalar, z: Scalar, w: Scalar) -> (r: Tuple)
        ensures
            r.x == x,
            r.y == y,
            r.z == z,
            r.w == w,
    {
        Tuple { x, y, z, w }
    }

    /// Componentwise sum of two generic tuples.
    pub fn add_tuple(&self, rhs: &Tuple) -> (r: Tuple)
        requires
            sum_fits(self.x@, rhs.x@),
            sum_fits(self.y@, rhs.y@),
            sum_fits(self.z@, rhs.z@),
            sum_fits(self.w@, rhs.w@),
        ensures
            r.x@ == self.x@ + rhs.x@,
            r.y@ == self.y@ + rhs.y@,
            r.z@ == self.z@ + rhs.z@,
            r.w@ == self.w@ + rhs.w@,
    {
        Tuple {
            x: self.x.add(rhs.x),
            y: self.y.add(rhs.y),
            z: self.z.add(rhs.z),
            w: self.w.add(rhs.w),
        }
    }

    /// Sum of a generic tuple and a point, whose discriminant counts as one.
    pub fn add_point(&self, rhs: &Point) -> (r: Tuple)
        requires
            sum_fits(self.x@, rhs.x@),
            sum_fits(self.y@, rhs.y@),
            sum_fits(self.z@, rhs.z@),
            sum_fits(self.w@, SCALE as int),
        ensures
            r.x@ == self.x@ + rhs.x@,
            r.y@ == self.y@ + rhs.y@,
            r.z@ == self.z@ + rhs.z@,
            r.w@ == self.w@ + SCALE,
    {
        Tuple {
            x: self.x.add(rhs.x),
            y: self.y.add(rhs.y),
            z: self.z.add(rhs.z),
            w: self.w.add(Scalar::one()),
        }
    }

    /// Sum of a generic tuple and a vector, whose discriminant counts as zero.
    pub fn add_vector(&self, rhs: &Vector) -> (r: Tuple)
        requires
            sum_fits(self.x@, rhs.x@),
            sum_fits(self.y@, rhs.y@),
            sum_fits(self.z@, rhs.z@),
        ensures
            r.x@ == self.x@ + rhs.x@,
            r.y@ == self.y@ + rhs.y@,
            r.z@ == self.z@ + rhs.z@,
            r.w@ == self.w@,
    {
        Tuple { x: self.x.add(rhs.x), y: self.y.add(rhs.y), z: self.z.add(rhs.z), w: self.w }
    }

    /// Componentwise difference of two generic tuples.
    pub fn sub_tuple(&self, rhs: &Tuple) -> (r: Tuple)
        requires
            diff_fits(self.x@, rhs.x@),
            diff_fits(self.y@, rhs.y@),
            diff_fits(self.z@, rhs.z@),
            diff_fits(self.w@, rhs.w@),
        ensures
            r.x@ == self.x@ - rhs.x@,
            r.y@ == self.y@ - rhs.y@,
            r.z@ == self.z@ - rhs.z@,
            r.w@ == self.w@ - rhs.w@,
    {
        Tuple {
            x: self.x.sub(rhs.x),
            y: self.y.sub(rhs.y),
            z: self.z.sub(rhs.z),
            w: self.w.sub(rhs.w),
        }
    }

    /// Difference of a generic tuple and a point.
    pub fn sub_point(&self, rhs: &Point) -> (r: Tuple)
        requires
            diff_fits(self.x@, rhs.x@),
            diff_fits(self.y@, rhs.y@),
            diff_fits(self.z@, rhs.z@),
            diff_fits(self.w@, SCALE as int),
        ensures
            r.x@ == self.x@ - rhs.x@,
            r.y@ == self.y@ - rhs.y@,
            r.z@ == self.z@ - rhs.z@,
            r.w@ == self.w@ - SCALE,
    {
        Tuple {
            x: self.x.sub(rhs.x),
            y: self.y.sub(rhs.y),
            z: self.z.sub(rhs.z),
            w: self.w.sub(Scalar::one()),
        }
    }

    /// Difference of a generic tuple and a vector.
    pub fn sub_vector(&self, rhs: &Vector) -> (r: Tuple)
        requires
            diff_fits(self.x@, rhs.x@),
            diff_fits(self.y@, rhs.y@),
            diff_fits(self.z@, rhs.z@),
        ensures
            r.x@ == self.x@ - rhs.x@,
            r.y@ == self.y@ - rhs.y@,
            r.z@ == self.z@ - rhs.z@,
            r.w@ == self.w@,
    {
        Tuple { x: self.x.sub(rhs.x), y: self.y.sub(rhs.y), z: self.z.sub(rhs.z), w: self.w }
    }

    /// Componentwise negation, discriminant included.
    pub fn neg(&self) -> (r: Tuple)
        requires
            i64::MIN < self.x@,
            i64::MIN < self.y@,
            i64::MIN < self.z@,
            i64::MIN < self.w@,
        ensures
            r.x@ == -self.x@,
            r.y@ == -self.y@,
            r.z@ == -self.z@,
            r.w@ == -self.w@,
    {
        Tuple { x: self.x.neg(), y: self.y.neg(), z: self.z.neg(), w: self.w.neg() }
    }

    /// Componentwise scaling, discriminant included.
    pub fn mul(&self, rhs: Scalar) -> (r: Tuple)
        requires
            in_units_range(self.x@),
            in_units_range(self.y@),
            in_units_range(self.z@),
            in_units_range(self.w@),
            in_units_range(rhs@),
        ensures
            r.x@ == mul_units(self.x@, rhs@),
            r.y@ == mul_units(self.y@, rhs@),
            r.z@ == mul_units(self.z@, rhs@),
            r.w@ == mul_units(self.w@, rhs@),
    {
        Tuple {
            x: self.x.mul(rhs),
            y: self.y.mul(rhs),
            z: self.z.mul(rhs),
            w: self.w.mul(rhs),
        }
    }

    /// Componentwise division by a nonzero scalar, discriminant included.
    pub fn div(&self, rhs: Scalar) -> (r: Tuple)
        requires
            in_units_range(self.x@),
            in_units_range(self.y@),
            in_units_range(self.z@),
            in_units_range(self.w@),
            rhs@ != 0,
        ensures
            r.x@ == div_units(self.x@, rhs@),
            r.y@ == div_units(self.y@, rhs@),
            r.z@ == div_units(self.z@, rhs@),
            r.w@ == div_units(self.w@, rhs@),
    {
        Tuple {
            x: self.x.div(rhs),
            y: self.y.div(rhs),
            z: self.z.div(rhs),
            w: self.w.div(rhs),
        }
    }

    /// Whether all four components agree within the tolerance.
    pub fn approx_eq(&self, rhs: &Tuple) -> (r: bool)
        ensures
            r == tuple_near(*self, *rhs),
    {
        self.x.approx_eq(rhs.x) && self.y.approx_eq(rhs.y) && self.z.approx_eq(rhs.z)
            && self.w.approx_eq(rhs.w)
    }
}

impl Point {
    /// A point from its three coordinates; the discriminant is fixed at one.
    pub fn new(x: Scalar, y: Scalar, z: Scalar) -> (r: Point)
        ensures
            r.x == x,
            r.y == y,
            r.z == z,
    {
        Point { x, y, z }
    }

    /// Displacing a point by a vector gives a point.
    pub fn add_vector(&self, rhs: &Vector) -> (r: Point)
        requires
            sum_fits(self.x@, rhs.x@),
            sum_fits(self.y@, rhs.y@),
            sum_fits(self.z@, rhs.z@),
        ensures
            r.x@ == self.x@ + rhs.x@,
            r.y@ == self.y@ + rhs.y@,
            r.z@ == self.z@ + rhs.z@,
    {
        Point { x: self.x.add(rhs.x), y: self.y.add(rhs.y), z: self.z.add(rhs.z) }
    }

    /// Sum of a point and a generic tuple.
    pub fn add_tuple(&self, rhs: &Tuple) -> (r: Tuple)
        requires
            sum_fits(self.x@, rhs.x@),
            sum_fits(self.y@, rhs.y@),
            sum_fits(self.z@, rhs.z@),
            sum_fits(SCALE as int, rhs.w@),
        ensures
            r.x@ == self.x@ + rhs.x@,
            r.y@ == self.y@ + rhs.y@,
            r.z@ == self.z@ + rhs.z@,
            r.w@ == SCALE + rhs.w@,
    {
        Tuple {
            x: self.x.add(rhs.x),
            y: self.y.add(rhs.y),
            z: self.z.add(rhs.z),
            w: Scalar::one().add(rhs.w),
        }
    }

    /// The difference of two points: the displacement from `rhs` to `self`.
    pub fn sub_point(&self, rhs: &Point) -> (r: Vector)
        requires
            diff_fits(self.x@, rhs.x@),
            diff_fits(self.y@, rhs.y@),
            diff_fits(self.z@, rhs.z@),
        ensures
            r.x@ == self.x@ - rhs.x@,
            r.y@ == self.y@ - rhs.y@,
            r.z@ == self.z@ - rhs.z@,
    {
        Vector { x: self.x.sub(rhs.x), y: self.y.sub(rhs.y), z: self.z.sub(rhs.z) }
    }

    /// Moving a point back along a vector gives a point.
    pub fn sub_vector(&self, rhs: &Vector) -> (r: Point)
        requires
            diff_fits(self.x@, rhs.x@),
            diff_fits(self.y@, rhs.y@),
            diff_fits(self.z@, rhs.z@),
        ensures
            r.x@ == self.x@ - rhs.x@,
            r.y@ == self.y@ - rhs.y@,
            r.z@ == self.z@ - rhs.z@,
    {
        Point { x: self.x.sub(rhs.x), y: self.y.sub(rhs.y), z: self.z.sub(rhs.z) }
    }

    /// Whether the coordinates agree within the tolerance.
    pub fn approx_eq(&self, rhs: &Point) -> (r: bool)
        ensures
            r == point_near(*self, *rhs),
    {
        self.x.approx_eq(rhs.x) && self.y.approx_eq(rhs.y) && self.z.approx_eq(rhs.z)
    }
}

impl Vector {
    /// A vector from its three components; the discriminant is fixed at zero.
    pub fn new(x: Scalar, y: Scalar, z: Scalar) -> (r: Vector)
        ensures
            r.x == x,
            r.y == y,
            r.z == z,
    {
        Vector { x, y, z }
    }

    /// Componentwise sum of two vectors.
    pub fn add_vector(&self, rhs: &Vector) -> (r: Vector)
        requires
            sum_fits(self.x@, rhs.x@),
            sum_fits(self.y@, rhs.y@),
            sum_fits(self.z@, rhs.z@),
        ensures
            r.x@ == self.x@ + rhs.x@,
            r.y@ == self.y@ + rhs.y@,
            r.z@ == self.z@ + rhs.z@,
    {
        Vector { x: self.x.add(rhs.x), y: self.y.add(rhs.y), z: self.z.add(rhs.z) }
    }

    /// Displacing a point by a vector gives a point, whichever stands left.
    pub fn add_point(&self, rhs: &Point) -> (r: Point)
        requires
            sum_fits(self.x@, rhs.x@),
            sum_fits(self.y@, rhs.y@),
            sum_fits(self.z@, rhs.z@),
        ensures
            r.x@ == self.x@ + rhs.x@,
            r.y@ == self.y@ + rhs.y@,
            r.z@ == self.z@ + rhs.z@,
    {
        Point { x: self.x.add(rhs.x), y: self.y.add(rhs.y), z: self.z.add(rhs.z) }
    }

    /// Sum of a vector and a generic tuple.
    pub fn add_tuple(&self, rhs: &Tuple) -> (r: Tuple)
        requires
            sum_fits(self.x@, rhs.x@),
            sum_fits(self.y@, rhs.y@),
            sum_fits(self.z@, rhs.z@),
        ensures
            r.x@ == self.x@ + rhs.x@,
            r.y@ == self.y@ + rhs.y@,
            r.z@ == self.z@ + rhs.z@,
            r.w@ == rhs.w@,
    {
        Tuple { x: self.x.add(rhs.x), y: self.y.add(rhs.y), z: self.z.add(rhs.z), w: rhs.w }
    }

    /// Componentwise difference of two vectors.
    pub fn sub_vector(&self, rhs: &Vector) -> (r: Vector)
        requires
            diff_fits(self.x@, rhs.x@),
            diff_fits(self.y@, rhs.y@),
            diff_fits(self.z@, rhs.z@),
        ensures
            r.x@ == self.x@ - rhs.x@,
            r.y@ == self.y@ - rhs.y@,
            r.z@ == self.z@ - rhs.z@,
    {
        Vector { x: self.x.sub(rhs.x), y: self.y.sub(rhs.y), z: self.z.sub(rhs.z) }
    }

    /// Componentwise negation: the opposite displacement.
    pub fn neg(&self) -> (r: Vector)
        requires
            i64::MIN < self.x@,
            i64::MIN < self.y@,
            i64::MIN < self.z@,
        ensures
            r.x@ == -self.x@,
            r.y@ == -self.y@,
            r.z@ == -self.z@,
    {
        Vector { x: self.x.neg(), y: self.y.neg(), z: self.z.neg() }
    }

    /// Componentwise scaling.
    pub fn mul(&self, rhs: Scalar) -> (r: Vector)
        requires
            in_units_range(self.x@),
            in_units_range(self.y@),
            in_units_range(self.z@),
            in_units_range(rhs@),
        ensures
            r.x@ == mul_units(self.x@, rhs@),
            r.y@ == mul_units(self.y@, rhs@),
            r.z@ == mul_units(self.z@, rhs@),
    {
        Vector { x: self.x.mul(rhs), y: self.y.mul(rhs), z: self.z.mul(rhs) }
    }

    /// Componentwise division by a nonzero scalar.
    pub fn div(&self, rhs: Scalar) -> (r: Vector)
        requires
            in_units_range(self.x@),
            in_units_range(self.y@),
            in_units_range(self.z@),
            rhs@ != 0,
        ensures
            r.x@ == div_units(self.x@, rhs@),
            r.y@ == div_units(self.y@, rhs@),
            r.z@ == div_units(self.z@, rhs@),
    {
        Vector { x: self.x.div(rhs), y: self.y.div(rhs), z: self.z.div(rhs) }
    }

    /// Whether the components agree within the tolerance.
    pub fn approx_eq(&self, rhs: &Vector) -> (r: bool)
        ensures
            r == vector_near(*self, *rhs),
    {
        self.x.approx_eq(rhs.x) && self.y.approx_eq(rhs.y) && self.z.approx_eq(rhs.z)
    }

    /// The Euclidean length of the vector, rounded down to whole units.
    pub fn magnitude(&self) -> (r: Scalar)
        requires
            in_units_range(self.x@),
            in_units_range(self.y@),
            in_units_range(self.z@),
        ensures
            r@ == magnitude_units(*self),
            0 <= r@ < 2 * MAX_UNITS,
    {
        let s: i128 = sq_i128(self.x.units) + sq_i128(self.y.units) + sq_i128(self.z.units);
        let q: u128 = s as u128;
        let m: u128 = isqrt(q);
        proof {
            lemma_sq_lt(m as int, 2 * MAX_UNITS as int);
        }
        Scalar { units: m as i64 }
    }

    /// The vector scaled to length one, within tolerance: each component,
    /// carried at [`NORM_PREC`] extra precision, divided by the magnitude
    /// taken at the same precision. The zero vector has no direction and is
    /// excluded.
    pub fn normalize(&self) -> (r: Vector)
        requires
            in_units_range(self.x@),
            in_units_range(self.y@),
            in_units_range(self.z@),
            self.x@ != 0 || self.y@ != 0 || self.z@ != 0,
        ensures
            r.x@ == normalize_x_units(*self),
            r.y@ == normalize_y_units(*self),
            r.z@ == normalize_z_units(*self),
            abs_val(r.x@) <= SCALE,
            abs_val(r.y@) <= SCALE,
            abs_val(r.z@) <= SCALE,
    {
        let sx: i128 = sq_i128(self.x.units);
        let sy: i128 = sq_i128(self.y.units);
        let sz: i128 = sq_i128(self.z.units);
        let q: u128 = (sx + sy + sz) as u128;
        proof {
            if self.x@ != 0 {
                lemma_sq_pos(self.x@);
            } else if self.y@ != 0 {
                lemma_sq_pos(self.y@);
            } else {
                lemma_sq_pos(self.z@);
            }
        }
        let qk: u128 = q * 1_099_511_627_776;  // the square of NORM_PREC
        let m: u128 = isqrt(qk);
        proof {
            assert(NORM_PREC as int * NORM_PREC as int == 1_099_511_627_776) by (nonlinear_arith);
            lemma_sq_lt(NORM_PREC as int, m as int + 1);
        }
        Vector {
            x: Scalar { units: norm_comp(self.x.units, m) },
            y: Scalar { units: norm_comp(self.y.units, m) },
            z: Scalar { units: norm_comp(self.z.units, m) },
        }
    }
}

/// Divides one component, scaled up by [`SCALE`] and [`NORM_PREC`], by the
/// high-precision magnitude `m`, truncating toward zero. The bound relating
/// the component's square to `m` caps the quotient at one unit's worth.
fn norm_comp(c: i64, m: u128) -> (r: i64)
    requires
        in_units_range(c as int),
        NORM_PREC as int <= m as int,
        (c as int) * (c as int) * 1_099_511_627_776 < (m as int + 1) * (m as int + 1),
    ensures
        r as int == tdiv((c as int) * SCALE * NORM_PREC, m as int),
        abs_val(r as int) <= SCALE as int,
{
    let ca: u128 = if c >= 0 {
        c as u128
    } else {
        (-(c as i128)) as u128
    };
    proof {
        assert((ca as int) * (ca as int) == (c as int) * (c as int)) by (nonlinear_arith)
            requires
                ca as int == abs_val(c as int),
        ;
        assert(((ca as int) * 1_048_576) * ((ca as int) * 1_048_576) == (ca as int) * (ca as int)
            * 1_099_511_627_776) by (nonlinear_arith);
        lemma_sq_lt((ca as int) * 1_048_576, m as int + 1);
    }
    let num: u128 = ca * (SCALE as u128) * (NORM_PREC as u128);
    proof {
        lemma_div_bound(num as int, m as int, SCALE as int);
    }
    let qd: u128 = num / m;
    if c >= 0 {
        qd as i64
    } else {
        proof {
            assert((ca as int) * SCALE * NORM_PREC == -((c as int) * SCALE * NORM_PREC))
                by (nonlinear_arith)
                requires
                    ca as int == -(c as int),
            ;
        }
        -(qd as i64)
    }
}

impl Color {
    /// A color from its red, green and blue intensities.
    pub fn new(red: Scalar, green: Scalar, blue: Scalar) -> (r: Color)
        ensures
            r.red == red,
            r.green == green,
            r.blue == blue,
    {
        Color { red, green, blue }
    }

    /// Componentwise sum of two colors.
    pub fn add(&self, rhs: &Color) -> (r: Color)
        requires
            sum_fits(self.red@, rhs.red@),
            sum_fits(self.green@, rhs.green@),
            sum_fits(self.blue@, rhs.blue@),
        ensures
            r.red@ == self.red@ + rhs.red@,
            r.green@ == self.green@ + rhs.green@,
            r.blue@ == self.blue@ + rhs.blue@,
    {
        Color {
            red: self.red.add(rhs.red),
            green: self.green.add(rhs.green),
            blue: self.blue.add(rhs.blue),
        }
    }

    /// Componentwise difference of two colors.
    pub fn sub(&self, rhs: &Color) -> (r: Color)
        requires
            diff_fits(self.red@, rhs.red@),
            diff_fits(self.green@, rhs.green@),
            diff_fits(self.blue@, rhs.blue@),
        ensures
            r.red@ == self.red@ - rhs.red@,
            r.green@ == self.green@ - rhs.green@,
            r.blue@ == self.blue@ - rhs.blue@,
    {
        Color {
            red: self.red.sub(rhs.red),
            green: self.green.sub(rhs.green),
            blue: self.blue.sub(rhs.blue),
        }
    }

    /// Componentwise scaling of the intensities.
    pub fn mul(&self, rhs: Scalar) -> (r: Color)
        requires
            in_units_range(self.red@),
            in_units_range(self.green@),
            in_units_range(self.blue@),
            in_units_range(rhs@),
        ensures
            r.red@ == mul_units(self.red@, rhs@),
            r.green@ == mul_units(self.green@, rhs@),
            r.blue@ == mul_units(self.blue@, rhs@),
    {
        Color { red: self.red.mul(rhs), green: self.green.mul(rhs), blue: self.blue.mul(rhs) }
    }

    /// The Hadamard product: channel by channel, red with red, green with
    /// green, blue with blue. The blending of light with pigment.
    pub fn hadamard(&self, rhs: &Color) -> (r: Color)
        requires
            in_units_range(self.red@),
            in_units_range(self.green@),
            in_units_range(self.blue@),
            in_units_range(rhs.red@),
            in_units_range(rhs.green@),
            in_units_range(rhs.blue@),
        ensures
            r.red@ == mul_units(self.red@, rhs.red@),
            r.green@ == mul_units(self.green@, rhs.green@),
            r.blue@ == mul_units(self.blue@, rhs.blue@),
    {
        Color {
            red: self.red.mul(rhs.red),
            green: self.green.mul(rhs.green),
            blue: self.blue.mul(rhs.blue),
        }
    }

    /// Whether the intensities agree within the tolerance.
    pub fn approx_eq(&self, rhs: &Color) -> (r: bool)
        ensures
            r == color_near(*self, *rhs),
    {
        self.red.approx_eq(rhs.red) && self.green.approx_eq(rhs.green) && self.blue.approx_eq(
            rhs.blue,
        )
    }
}

impl Value for Tuple {
    open spec fn vals(&self) -> Seq<int> {
        seq![self.x@, self.y@, self.z@, self.w@]
    }

    fn value(&self) -> (v: Vec<Scalar>) {
        let v = vec![self.x, self.y, self.z, self.w];
        assert forall|i: int| 0 <= i < v@.len() implies #[trigger] v@[i]@ == self.vals()[i] by {}
        v
    }
}

impl Value for Point {
    open spec fn vals(&self) -> Seq<int> {
        seq![self.x@, self.y@, self.z@, SCALE as int]
    }

    fn value(&self) -> (v: Vec<Scalar>) {
        let v = vec![self.x, self.y, self.z, Scalar::one()];
        assert forall|i: int| 0 <= i < v@.len() implies #[trigger] v@[i]@ == self.vals()[i] by {}
        v
    }
}

impl Value for Vector {
    open spec fn vals(&self) -> Seq<int> {
        seq![self.x@, self.y@, self.z@, 0]
    }

    fn value(&self) -> (v: Vec<Scalar>) {
        let v = vec![self.x, self.y, self.z, Scalar::zero()];
        assert forall|i: int| 0 <= i < v@.len() implies #[trigger] v@[i]@ == self.vals()[i] by {}
        v
    }
}

impl Value for Color {
    open spec fn vals(&self) -> Seq<int> {
        seq![self.red@, self.green@, self.blue@]
    }

    fn value(&self) -> (v: Vec<Scalar>) {
        let v = vec![self.red, self.green, self.blue];
        assert forall|i: int| 0 <= i < v@.len() implies #[trigger] v@[i]@ == self.vals()[i] by {}
        v
    }
}

/// The dot product of two vectors: componentwise products of the three
/// coordinates, summed, then scaled back to units.
pub fn dot(v1: &Vector, v2: &Vector) -> (r: Scalar)
    requires
        in_units_range(v1.x@),
        in_units_range(v1.y@),
        in_units_range(v1.z@),
        in_units_range(v2.x@),
        in_units_range(v2.y@),
        in_units_range(v2.z@),
    ensures
        r@ == dot_units(*v1, *v2),
{
    let px: i128 = mul_wide(v1.x.units, v2.x.units);
    let py: i128 = mul_wide(v1.y.units, v2.y.units);
    let pz: i128 = mul_wide(v1.z.units, v2.z.units);
    Scalar { units: scale_down(px + py + pz) }
}

/// The cross product of two vectors: the standard right-handed formula,
/// each component scaled back to units.
pub fn cross(v1: &Vector, v2: &Vector) -> (r: Vector)
    requires
        in_units_range(v1.x@),
        in_units_range(v1.y@),
        in_units_range(v1.z@),
        in_units_range(v2.x@),
        in_units_range(v2.y@),
        in_units_range(v2.z@),
    ensures
        r.x@ == cross_x_units(*v1, *v2),
        r.y@ == cross_y_units(*v1, *v2),
        r.z@ == cross_z_units(*v1, *v2),
{
    let cx: i64 = scale_down(
        mul_wide(v1.y.units, v2.z.units) - mul_wide(v1.z.units, v2.y.units),
    );
    let cy: i64 = scale_down(
        mul_wide(v1.z.units, v2.x.units) - mul_wide(v1.x.units, v2.z.units),
    );
    let cz: i64 = scale_down(
        mul_wide(v1.x.units, v2.y.units) - mul_wide(v1.y.units, v2.x.units),
    );
    Vector { x: Scalar { units: cx }, y: Scalar { units: cy }, z: Scalar { units: cz } }
}

/// Multiplies two bounded unit counts in double width.
fn mul_wide(a: i64, b: i64) -> (r: i128)
    requires
        in_units_range(a as int),
        in_units_range(b as int),
    ensures
        r as int == (a as int) * (b as int),
        -1_000_000_000_000_000_000_000_000 <= r <= 1_000_000_000_000_000_000_000_000,
{
    let wa: i128 = a as i128;
    let wb: i128 = b as i128;
    proof {
        assert(-1_000_000_000_000_000_000_000_000 <= wa * wb
            <= 1_000_000_000_000_000_000_000_000) by (nonlinear_arith)
            requires
                -1_000_000_000_000 <= wa <= 1_000_000_000_000,
                -1_000_000_000_000 <= wb <= 1_000_000_000_000,
        ;
    }
    wa * wb
}

} // verus!
