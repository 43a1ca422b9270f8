//! The small-scale static-equilibrium core of the rigging solver: scaled
//! unit vectors, 3-by-3 determinants and Cramer quotients, all in exact
//! integer arithmetic.
//!
//! Sling directions are scaled by [`UNIT_SCALE`]; the equilibrium system is
//! scaled by the same factor, so Cramer quotients come out in plain newtons.

use vstd::prelude::*;
use crate::geom::{spec_norm, spec_norm_sq, vec_in_bounds_wide, norm_mm, Vec3Mm};
use crate::num::{abs_int, div_floor_i128};

verus! {

/// The scale of unit direction vectors: this value stands for length 1.
pub const UNIT_SCALE: i64 = 1000;

/// A determinant of scaled unit columns smaller than this counts as
/// singular: it corresponds to one millionth at unit scale.
pub const DET_EPS_SCALED: i128 = 1000;

/// One component of a direction scaled to unit length.
pub open spec fn spec_unit_comp(c: int, n: int) -> int {
    c * 1000 / n
}

/// A direction vector scaled to unit length at [`UNIT_SCALE`].
pub open spec fn spec_scaled_unit(v: Vec3Mm) -> Vec3Mm {
    let n = spec_norm(v);
    Vec3Mm {
        x: spec_unit_comp(v.x as int, n) as i64,
        y: spec_unit_comp(v.y as int, n) as i64,
        z: spec_unit_comp(v.z as int, n) as i64,
    }
}

/// The cross product of two integer triples.
pub open spec fn spec_cross(a: (int, int, int), b: (int, int, int)) -> (int, int, int) {
    (a.1 * b.2 - a.2 * b.1, a.2 * b.0 - a.0 * b.2, a.0 * b.1 - a.1 * b.0)
}

/// The determinant of the 3-by-3 matrix with columns `a`, `b`, `c`: the
/// third column dotted with the cross product of the first two.
pub open spec fn spec_det3(a: (int, int, int), b: (int, int, int), c: (int, int, int)) -> int {
    let p = spec_cross(a, b);
    c.0 * p.0 + c.1 * p.1 + c.2 * p.2
}

/// The integer triple of a vector.
pub open spec fn spec_triple(v: Vec3Mm) -> (int, int, int) {
    (v.x as int, v.y as int, v.z as int)
}

/// Scale a nonzero direction to unit length; the result equals
/// [`spec_scaled_unit`] and each component stays within one unit (plus the
/// floor-rounding step below zero).
pub fn scaled_unit(v: &Vec3Mm) -> (u: Vec3Mm)
    requires
        vec_in_bounds_wide(*v),
        spec_norm_sq(*v) >= 1,
    ensures
        u == spec_scaled_unit(*v),
        -1001 <= u.x <= 1000 && -1001 <= u.y <= 1000 && -1001 <= u.z <= 1000,
{
    let n = norm_mm(v);
    proof {
        crate::num::lemma_isqrt_is_isqrt(spec_norm_sq(*v));
        assert(n >= 1) by (nonlinear_arith)
            requires
                (n as int + 1) * (n as int + 1) > spec_norm_sq(*v) && spec_norm_sq(*v) >= 1
                    && n >= 0;
        assert(v.x * v.x >= 0 && v.y * v.y >= 0 && v.z * v.z >= 0) by (nonlinear_arith);
        lemma_unit_comp_bounds(v.x as int, n as int, spec_norm_sq(*v));
        lemma_unit_comp_bounds(v.y as int, n as int, spec_norm_sq(*v));
        lemma_unit_comp_bounds(v.z as int, n as int, spec_norm_sq(*v));
    }
    let ux = div_floor_i128((v.x as i128) * 1000, n as i128) as i64;
    let uy = div_floor_i128((v.y as i128) * 1000, n as i128) as i64;
    let uz = div_floor_i128((v.z as i128) * 1000, n as i128) as i64;
    Vec3Mm { x: ux, y: uy, z: uz }
}

/// A component of a vector never exceeds the vector's length, so the scaled
/// component stays within one scaled unit.
proof fn lemma_unit_comp_bounds(c: int, n: int, nsq: int)
    requires
        1 <= n,
        c * c <= nsq,
        n * n <= nsq < (n + 1) * (n + 1),
    ensures
        -1001 <= spec_unit_comp(c, n) <= 1000,
{
    assert(-(n + 1) < c < n + 1) by (nonlinear_arith)
        requires c * c <= nsq && nsq < (n + 1) * (n + 1) && 0 <= n;
    assert(c <= n && -n <= c);
    assert(c * 1000 <= n * 1000 && -(n * 1000) <= c * 1000) by (nonlinear_arith)
        requires -n <= c <= n && 0 <= n;
    vstd::arithmetic::div_mod::lemma_div_is_ordered(c * 1000, n * 1000, n);
    vstd::arithmetic::div_mod::lemma_div_is_ordered(-(n * 1000), c * 1000, n);
    vstd::arithmetic::div_mod::lemma_div_multiples_vanish(1000, n);
    vstd::arithmetic::div_mod::lemma_div_multiples_vanish(-1000, n);
}

/// A scaled unit vector's components stay within this bound.
pub open spec fn unit_bounded(u: Vec3Mm) -> bool {
    -1001 <= u.x <= 1001 && -1001 <= u.y <= 1001 && -1001 <= u.z <= 1001
}

/// The cross product of two scaled unit vectors; components stay within
/// about two squared units.
pub fn cross_units(a: &Vec3Mm, b: &Vec3Mm) -> (p: (i64, i64, i64))
    requires
        unit_bounded(*a),
        unit_bounded(*b),
    ensures
        (p.0 as int, p.1 as int, p.2 as int) == spec_cross(spec_triple(*a), spec_triple(*b)),
        -2_004_002 <= p.0 <= 2_004_002 && -2_004_002 <= p.1 <= 2_004_002 && -2_004_002 <= p.2
            <= 2_004_002,
{
    proof {
        assert(-1_002_001 <= (a.y as int) * (b.z as int) <= 1_002_001 && -1_002_001 <= (
        a.z as int) * (b.y as int) <= 1_002_001 && -1_002_001 <= (a.z as int) * (b.x as int)
            <= 1_002_001 && -1_002_001 <= (a.x as int) * (b.z as int) <= 1_002_001 && -1_002_001
            <= (a.x as int) * (b.y as int) <= 1_002_001 && -1_002_001 <= (a.y as int) * (
        b.x as int) <= 1_002_001) by (nonlinear_arith)
            requires
                -1001 <= a.x <= 1001 && -1001 <= a.y <= 1001 && -1001 <= a.z <= 1001 && -1001
                    <= b.x <= 1001 && -1001 <= b.y <= 1001 && -1001 <= b.z <= 1001;
    }
    let px: i64 = a.y * b.z - a.z * b.y;
    let py: i64 = a.z * b.x - a.x * b.z;
    let pz: i64 = a.x * b.y - a.y * b.x;
    (px, py, pz)
}

/// The determinant of three scaled unit columns.
pub fn det_units(a: &Vec3Mm, b: &Vec3Mm, c: &Vec3Mm) -> (r: i128)
    requires
        unit_bounded(*a),
        unit_bounded(*b),
        unit_bounded(*c),
    ensures
        r == spec_det3(spec_triple(*a), spec_triple(*b), spec_triple(*c)),
        -7_000_000_000 <= r <= 7_000_000_000,
{
    let p = cross_units(a, b);
    proof {
        assert(-2_006_010_002 <= (c.x as int) * (p.0 as int) <= 2_006_010_002 && -2_006_010_002
            <= (c.y as int) * (p.1 as int) <= 2_006_010_002 && -2_006_010_002 <= (c.z as int) * (
        p.2 as int) <= 2_006_010_002) by (nonlinear_arith)
            requires
                -1001 <= c.x <= 1001 && -1001 <= c.y <= 1001 && -1001 <= c.z <= 1001 && -2_004_002
                    <= p.0 <= 2_004_002 && -2_004_002 <= p.1 <= 2_004_002 && -2_004_002 <= p.2
                    <= 2_004_002;
    }
    (c.x as i128) * (p.0 as i128) + (c.y as i128) * (p.1 as i128) + (c.z as i128) * (p.2 as i128)
}

/// A Cramer numerator whose replaced column is the vertical force
/// `(0, 0, m)`: the determinant collapses to `m` times one cross-product
/// component.
pub fn det_with_vertical(a: &Vec3Mm, b: &Vec3Mm, m: i128, Ghost(cm): Ghost<int>) -> (r: i128)
    requires
        unit_bounded(*a),
        unit_bounded(*b),
        0 <= m <= cm,
        cm <= 0x1_0000_0000_0000_0000,
    ensures
        r == spec_det3(spec_triple(*a), spec_triple(*b), (0, 0, m as int)),
        -(3 * cm * 2_004_002) <= r <= 3 * cm * 2_004_002,
{
    let p = cross_units(a, b);
    proof {
        assert(-(cm * 2_004_002) <= m * (p.2 as int) <= cm * 2_004_002) by (nonlinear_arith)
            requires 0 <= m <= cm && -2_004_002 <= p.2 <= 2_004_002;
        assert(cm * 2_004_002 <= 3 * cm * 2_004_002 && -(3 * cm * 2_004_002) <= -(cm * 2_004_002))
            by (nonlinear_arith)
            requires 0 <= cm;
    }
    m * (p.2 as i128)
}

/// A dependent combination of the columns forces the determinant to vanish:
/// with `ka*a + kb*b + kc*c == 0` componentwise and `kc != 0`, the columns
/// are coplanar and the determinant is zero.
pub proof fn lemma_dependent_columns_det_zero(
    a: (int, int, int),
    b: (int, int, int),
    c: (int, int, int),
    ka: int,
    kb: int,
    kc: int,
)
    requires
        kc != 0,
        ka * a.0 + kb * b.0 + kc * c.0 == 0,
        ka * a.1 + kb * b.1 + kc * c.1 == 0,
        ka * a.2 + kb * b.2 + kc * c.2 == 0,
    ensures
        spec_det3(a, b, c) == 0,
{
    let p = spec_cross(a, b);
    let d = spec_det3(a, b, c);
    assert(a.0 * p.0 + a.1 * p.1 + a.2 * p.2 == 0) by (nonlinear_arith)
        requires p.0 == a.1 * b.2 - a.2 * b.1 && p.1 == a.2 * b.0 - a.0 * b.2 && p.2 == a.0 * b.1
            - a.1 * b.0;
    assert(b.0 * p.0 + b.1 * p.1 + b.2 * p.2 == 0) by (nonlinear_arith)
        requires p.0 == a.1 * b.2 - a.2 * b.1 && p.1 == a.2 * b.0 - a.0 * b.2 && p.2 == a.0 * b.1
            - a.1 * b.0;
    assert(kc * (c.0 * p.0) == -(ka * (a.0 * p.0)) - kb * (b.0 * p.0)) by (nonlinear_arith)
        requires ka * a.0 + kb * b.0 + kc * c.0 == 0;
    assert(kc * (c.1 * p.1) == -(ka * (a.1 * p.1)) - kb * (b.1 * p.1)) by (nonlinear_arith)
        requires ka * a.1 + kb * b.1 + kc * c.1 == 0;
    assert(kc * (c.2 * p.2) == -(ka * (a.2 * p.2)) - kb * (b.2 * p.2)) by (nonlinear_arith)
        requires ka * a.2 + kb * b.2 + kc * c.2 == 0;
    assert(ka * (a.0 * p.0) + ka * (a.1 * p.1) + ka * (a.2 * p.2) == 0) by (nonlinear_arith)
        requires a.0 * p.0 + a.1 * p.1 + a.2 * p.2 == 0;
    assert(kb * (b.0 * p.0) + kb * (b.1 * p.1) + kb * (b.2 * p.2) == 0) by (nonlinear_arith)
        requires b.0 * p.0 + b.1 * p.1 + b.2 * p.2 == 0;
    assert(kc * d == kc * (c.0 * p.0) + kc * (c.1 * p.1) + kc * (c.2 * p.2)) by (nonlinear_arith)
        requires d == c.0 * p.0 + c.1 * p.1 + c.2 * p.2;
    assert(kc * d == 0);
    assert(d == 0) by (nonlinear_arith)
        requires kc != 0 && kc * d == 0;
}

/// Newtons to whole kilograms: the magnitude over standard gravity
/// (9.81 m/s^2, held as 981/100).
pub open spec fn spec_newtons_to_kg(t: int) -> int {
    abs_int(t) * 100 / 981
}

/// Convert a solved force in newtons to kilograms, taking the magnitude.
pub fn newtons_to_kg(t: i128) -> (r: i64)
    requires
        -4_000_000_000_000_000_000 <= t <= 4_000_000_000_000_000_000,
    ensures
        r == spec_newtons_to_kg(t as int),
        0 <= r <= 500_000_000_000_000_000,
{
    let m: i128 = if t >= 0 {
        t
    } else {
        -t
    };
    proof {
        vstd::arithmetic::div_mod::lemma_div_pos_is_pos(m as int * 100, 981);
        vstd::arithmetic::div_mod::lemma_div_is_ordered(m as int * 100,
            400_000_000_000_000_000_000, 981);
        vstd::arithmetic::div_mod::lemma_div_is_ordered_by_denominator(
            400_000_000_000_000_000_000, 800, 981);
        vstd::arithmetic::div_mod::lemma_div_multiples_vanish(500_000_000_000_000_000, 800);
    }
    div_floor_i128(m * 100, 981) as i64
}

} // verus!
