//! The algebraic laws the library guarantees, stated over the same spec
//! functions that the executable operations are proved against.

use crate::scalar::{
    abs_val, lemma_tdiv_bounds, lemma_tdiv_neg, near, EPSILON_UNITS, SCALE,
};
use crate::sqrt::{
    lemma_sq_lt, lemma_sq_nonneg, lemma_sq_pos, lemma_sqrt_floor, sqrt_floor,
};
use crate::tuples::{
    cross_x_units, cross_y_units, cross_z_units, dot_units, mag_sq_units, norm_comp_units,
    norm_den_units, normalize_x_units, normalize_y_units, normalize_z_units, point_near, Point,
    Vector, NORM_PREC,
};
use vstd::arithmetic::mul::lemma_mul_inequality;
use vstd::prelude::*;

verus! {

/// The dot product does not depend on the order of its arguments.
pub proof fn lemma_dot_commutative(a: Vector, b: Vector)
    ensures
        dot_units(a, b) == dot_units(b, a),
{
    assert(a.x@ * b.x@ + a.y@ * b.y@ + a.z@ * b.z@ == b.x@ * a.x@ + b.y@ * a.y@ + b.z@ * a.z@)
        by (nonlinear_arith);
}

/// The cross product is anti-commutative: swapping the arguments negates
/// every component of the result.
pub proof fn lemma_cross_antisymmetric(a: Vector, b: Vector)
    ensures
        cross_x_units(a, b) == -cross_x_units(b, a),
        cross_y_units(a, b) == -cross_y_units(b, a),
        cross_z_units(a, b) == -cross_z_units(b, a),
{
    let px = b.y@ * a.z@ - b.z@ * a.y@;
    let py = b.z@ * a.x@ - b.x@ * a.z@;
    let pz = b.x@ * a.y@ - b.y@ * a.x@;
    assert(a.y@ * b.z@ - a.z@ * b.y@ == -px) by (nonlinear_arith)
        requires
            px == b.y@ * a.z@ - b.z@ * a.y@,
    ;
    assert(a.z@ * b.x@ - a.x@ * b.z@ == -py) by (nonlinear_arith)
        requires
            py == b.z@ * a.x@ - b.x@ * a.z@,
    ;
    assert(a.x@ * b.y@ - a.y@ * b.x@ == -pz) by (nonlinear_arith)
        requires
            pz == b.x@ * a.y@ - b.y@ * a.x@,
    ;
    lemma_tdiv_neg(px, SCALE as int);
    lemma_tdiv_neg(py, SCALE as int);
    lemma_tdiv_neg(pz, SCALE as int);
}

/// Approximate equality of unit counts is reflexive.
pub proof fn lemma_near_reflexive(a: int)
    ensures
        near(a, a),
{
}

/// Approximate equality of points is reflexive.
pub proof fn lemma_approx_eq_reflexive(p: Point)
    ensures
        point_near(p, p),
{
}

/// Approximate equality tolerates perturbation: two points whose coordinates
/// all differ by fewer than [`EPSILON_UNITS`] units compare as equal.
pub proof fn lemma_approx_eq_tolerant(a: Point, b: Point)
    requires
        abs_val(a.x@ - b.x@) < EPSILON_UNITS as int,
        abs_val(a.y@ - b.y@) < EPSILON_UNITS as int,
        abs_val(a.z@ - b.z@) < EPSILON_UNITS as int,
    ensures
        point_near(a, b),
{
}

/// Bounds for one normalized component `norm_comp_units(c, m)`: its
/// magnitude stays within one unit's worth, and its square, weighted by the
/// square of the denominator `m`, brackets the square of the scaled-up
/// component.
proof fn lemma_norm_comp_bounds(c: int, q: int, m: int)
    requires
        c * c <= q,
        q * (NORM_PREC as int * NORM_PREC as int) < (m + 1) * (m + 1),
        NORM_PREC as int <= m,
    ensures
        abs_val(norm_comp_units(c, m)) <= SCALE as int,
        norm_comp_units(c, m) * norm_comp_units(c, m) * (m * m) <= (c * c) * ((SCALE as int
            * NORM_PREC as int) * (SCALE as int * NORM_PREC as int)),
        (c * c) * ((SCALE as int * NORM_PREC as int) * (SCALE as int * NORM_PREC as int)) < (
        abs_val(norm_comp_units(c, m)) + 1) * (abs_val(norm_comp_units(c, m)) + 1) * (m * m),
{
    let s = SCALE as int;
    let k = NORM_PREC as int;
    let n = norm_comp_units(c, m);
    let a = abs_val(n);
    let ac = abs_val(c);
    lemma_tdiv_bounds(c * s * k, m);
    assert(abs_val(c * s * k) == ac * s * k);
    assert(a * m <= ac * s * k);
    assert(ac * s * k < (a + 1) * m);
    lemma_sq_nonneg(k);
    lemma_mul_inequality(c * c, q, k * k);
    assert((ac * k) * (ac * k) == (c * c) * (k * k)) by (nonlinear_arith)
        requires
            ac == c || ac == -c,
    ;
    lemma_sq_lt(ac * k, m + 1);
    assert(ac * k <= m);
    assert(a * m <= s * m) by (nonlinear_arith)
        requires
            a * m <= ac * s * k,
            ac * k <= m,
            s >= 1,
            ac >= 0,
            k >= 1,
            m >= 1,
    ;
    assert(a <= s) by (nonlinear_arith)
        requires
            a * m <= s * m,
            m >= 1,
    ;
    assert(n * n * (m * m) <= (c * c) * ((s * k) * (s * k))) by (nonlinear_arith)
        requires
            a * m <= ac * s * k,
            a == n || a == -n,
            ac == c || ac == -c,
            a >= 0,
            ac >= 0,
            m >= 1,
            s >= 1,
            k >= 1,
    ;
    assert((c * c) * ((s * k) * (s * k)) < (a + 1) * (a + 1) * (m * m)) by (nonlinear_arith)
        requires
            ac * s * k < (a + 1) * m,
            ac == c || ac == -c,
            a >= 0,
            ac >= 0,
            m >= 1,
            s >= 1,
            k >= 1,
    ;
}

/// A normalized vector has magnitude one, within the tolerance. The law
/// holds for every vector but the zero vector, which has no direction and
/// is excluded from normalization.
pub proof fn lemma_normalize_magnitude(v: Vector)
    requires
        v.x@ != 0 || v.y@ != 0 || v.z@ != 0,
    ensures
        near(
            sqrt_floor(
                mag_sq_units(normalize_x_units(v), normalize_y_units(v), normalize_z_units(v)),
            ),
            SCALE as int,
        ),
{
    let x = v.x@;
    let y = v.y@;
    let z = v.z@;
    let s = SCALE as int;
    let k = NORM_PREC as int;
    let kk = k * k;
    let ww = (s * k) * (s * k);
    let q = mag_sq_units(x, y, z);
    lemma_sq_nonneg(x);
    lemma_sq_nonneg(y);
    lemma_sq_nonneg(z);
    lemma_sq_nonneg(k);
    if x != 0 {
        lemma_sq_pos(x);
    } else if y != 0 {
        lemma_sq_pos(y);
    } else {
        lemma_sq_pos(z);
    }
    assert(q >= 1);
    let qk = q * kk;
    assert(qk >= kk) by (nonlinear_arith)
        requires
            q >= 1,
            kk >= 0,
            qk == q * kk,
    ;
    lemma_sqrt_floor(qk);
    let m = sqrt_floor(qk);
    assert(norm_den_units(v) == m);
    lemma_sq_lt(k, m + 1);
    assert(k <= m);
    assert(m >= s);

    let nx = norm_comp_units(x, m);
    let ny = norm_comp_units(y, m);
    let nz = norm_comp_units(z, m);
    assert(normalize_x_units(v) == nx);
    assert(normalize_y_units(v) == ny);
    assert(normalize_z_units(v) == nz);
    lemma_norm_comp_bounds(x, q, m);
    lemma_norm_comp_bounds(y, q, m);
    lemma_norm_comp_bounds(z, q, m);
    let ax = abs_val(nx);
    let ay = abs_val(ny);
    let az = abs_val(nz);
    let nq = mag_sq_units(nx, ny, nz);
    lemma_sq_nonneg(nx);
    lemma_sq_nonneg(ny);
    lemma_sq_nonneg(nz);

    // upper bound: the squared magnitude of the result is below (s + 1)^2
    assert(nq * (m * m) <= q * ww) by (nonlinear_arith)
        requires
            nq == nx * nx + ny * ny + nz * nz,
            q == x * x + y * y + z * z,
            nx * nx * (m * m) <= (x * x) * ww,
            ny * ny * (m * m) <= (y * y) * ww,
            nz * nz * (m * m) <= (z * z) * ww,
    ;
    assert(q * ww == qk * (s * s)) by (nonlinear_arith)
        requires
            ww == (s * k) * (s * k),
            kk == k * k,
            qk == q * kk,
    ;
    assert(qk * (s * s) < ((m + 1) * (m + 1)) * (s * s)) by (nonlinear_arith)
        requires
            qk < (m + 1) * (m + 1),
            s >= 1,
    ;
    assert(nq < (s + 1) * (s + 1)) by (nonlinear_arith)
        requires
            nq * (m * m) < ((m + 1) * (m + 1)) * (s * s),
            m >= s,
            s >= 1,
            nq >= 0,
    ;

    // lower bound: the squared magnitude of the result is above (s - 4)^2
    assert(q * ww < (nq + 2 * (ax + ay + az) + 3) * (m * m)) by (nonlinear_arith)
        requires
            q == x * x + y * y + z * z,
            nq == nx * nx + ny * ny + nz * nz,
            (x * x) * ww < (ax + 1) * (ax + 1) * (m * m),
            (y * y) * ww < (ay + 1) * (ay + 1) * (m * m),
            (z * z) * ww < (az + 1) * (az + 1) * (m * m),
            ax == nx || ax == -nx,
            ay == ny || ay == -ny,
            az == nz || az == -nz,
    ;
    assert((m * m) * (s * s) <= q * ww) by (nonlinear_arith)
        requires
            m * m <= qk,
            s >= 1,
            q * ww == qk * (s * s),
    ;
    assert(s * s < nq + 2 * (ax + ay + az) + 3) by (nonlinear_arith)
        requires
            (m * m) * (s * s) < (nq + 2 * (ax + ay + az) + 3) * (m * m),
            m >= 1,
    ;
    assert(ax + ay + az <= 3 * s);
    assert(nq > s * s - 6 * s - 3);
    assert((s - 4) * (s - 4) < nq) by (nonlinear_arith)
        requires
            nq > s * s - 6 * s - 3,
            s >= 10,
    ;

    // squeeze the root of the result between s - 4 and s
    lemma_sqrt_floor(nq);
    let t = sqrt_floor(nq);
    lemma_sq_lt(t, s + 1);
    lemma_sq_lt(s - 4, t + 1);
    assert(s - 4 <= t <= s);
    assert(near(t, s));
}

} // verus!
