//! Points and vectors for the crane's world.
//!
//! Coordinates are millimetres; X points to the side (east), Y forward
//! (north) and Z up.  A [`Point3Mm`] is a position, a [`Vec3Mm`] a
//! displacement.  Coordinates are kept within [`MAX_COORD_MM`] so that
//! squared lengths and products with trigonometric scales stay inside the
//! integer types.

use vstd::prelude::*;
use crate::num::{isqrt_u64, spec_isqrt};

verus! {

/// Largest coordinate magnitude the engine works with: 1 000 km.
pub const MAX_COORD_MM: i64 = 1_000_000_000;

/// A position in millimetres.
#[derive(Clone, Copy, Debug, PartialEq, Eq, Structural)]
pub struct Point3Mm {
    pub x: i64,
    pub y: i64,
    pub z: i64,
}

/// A displacement or extent in millimetres.
#[derive(Clone, Copy, Debug, PartialEq, Eq, Structural)]
pub struct Vec3Mm {
    pub x: i64,
    pub y: i64,
    pub z: i64,
}

/// All three coordinates within [`MAX_COORD_MM`].
pub open spec fn point_in_bounds(p: Point3Mm) -> bool {
    -MAX_COORD_MM <= p.x <= MAX_COORD_MM && -MAX_COORD_MM <= p.y <= MAX_COORD_MM
        && -MAX_COORD_MM <= p.z <= MAX_COORD_MM
}

/// All three components within [`MAX_COORD_MM`].
pub open spec fn vec_in_bounds(v: Vec3Mm) -> bool {
    -MAX_COORD_MM <= v.x <= MAX_COORD_MM && -MAX_COORD_MM <= v.y <= MAX_COORD_MM
        && -MAX_COORD_MM <= v.z <= MAX_COORD_MM
}

impl Point3Mm {
    /// The origin.
    pub fn origin() -> (p: Point3Mm)
        ensures
            p == (Point3Mm { x: 0, y: 0, z: 0 }),
    {
        Point3Mm { x: 0, y: 0, z: 0 }
    }

    pub fn new(x: i64, y: i64, z: i64) -> (p: Point3Mm)
        ensures
            p == (Point3Mm { x, y, z }),
    {
        Point3Mm { x, y, z }
    }
}

impl Vec3Mm {
    pub fn new(x: i64, y: i64, z: i64) -> (v: Vec3Mm)
        ensures
            v == (Vec3Mm { x, y, z }),
    {
        Vec3Mm { x, y, z }
    }
}

/// The displacement from `b` to `a`.
pub open spec fn spec_sub(a: Point3Mm, b: Point3Mm) -> Vec3Mm {
    Vec3Mm { x: (a.x - b.x) as i64, y: (a.y - b.y) as i64, z: (a.z - b.z) as i64 }
}

/// Difference of two points as a vector.
pub fn point_sub(a: &Point3Mm, b: &Point3Mm) -> (v: Vec3Mm)
    requires
        point_in_bounds(*a),
        point_in_bounds(*b),
    ensures
        v == spec_sub(*a, *b),
        vec_in_bounds_wide(v),
{
    Vec3Mm { x: a.x - b.x, y: a.y - b.y, z: a.z - b.z }
}

/// Components within twice [`MAX_COORD_MM`]: the bound for differences of
/// in-bounds points.
pub open spec fn vec_in_bounds_wide(v: Vec3Mm) -> bool {
    -2 * MAX_COORD_MM <= v.x <= 2 * MAX_COORD_MM && -2 * MAX_COORD_MM <= v.y <= 2
        * MAX_COORD_MM && -2 * MAX_COORD_MM <= v.z <= 2 * MAX_COORD_MM
}

/// Squared Euclidean length.
pub open spec fn spec_norm_sq(v: Vec3Mm) -> int {
    v.x * v.x + v.y * v.y + v.z * v.z
}

/// Euclidean length, rounded down to a whole millimetre.
pub open spec fn spec_norm(v: Vec3Mm) -> int {
    spec_isqrt(spec_norm_sq(v))
}

/// Length of a vector in millimetres (the integer square root of the squared
/// length).
pub fn norm_mm(v: &Vec3Mm) -> (r: i64)
    requires
        vec_in_bounds_wide(*v),
    ensures
        r == spec_norm(*v),
        0 <= r <= 4 * MAX_COORD_MM,
{
    proof {
        lemma_norm_sq_bound(*v);
    }
    let xx: i64 = v.x * v.x;
    let yy: i64 = v.y * v.y;
    let zz: i64 = v.z * v.z;
    let n: u64 = (xx as u64) + (yy as u64) + (zz as u64);
    let r: u64 = isqrt_u64(n);
    proof {
        crate::num::lemma_isqrt_is_isqrt(spec_norm_sq(*v));
        crate::num::lemma_isqrt_unique(spec_norm_sq(*v), r as int, spec_isqrt(spec_norm_sq(*v)));
        assert(r as int <= 4_000_000_000) by (nonlinear_arith)
            requires
                (r as int) * (r as int) <= 12_000_000_000_000_000_000 && 0 <= r as int;
    }
    r as i64
}

/// Squares of in-bounds components stay below `4e18` each, so the squared
/// norm fits comfortably in 64 bits.
proof fn lemma_norm_sq_bound(v: Vec3Mm)
    requires
        vec_in_bounds_wide(v),
    ensures
        0 <= v.x * v.x <= 4_000_000_000_000_000_000,
        0 <= v.y * v.y <= 4_000_000_000_000_000_000,
        0 <= v.z * v.z <= 4_000_000_000_000_000_000,
        0 <= spec_norm_sq(v) <= 12_000_000_000_000_000_000,
{
    assert(0 <= v.x * v.x <= 4_000_000_000_000_000_000) by (nonlinear_arith)
        requires -2_000_000_000 <= v.x <= 2_000_000_000;
    assert(0 <= v.y * v.y <= 4_000_000_000_000_000_000) by (nonlinear_arith)
        requires -2_000_000_000 <= v.y <= 2_000_000_000;
    assert(0 <= v.z * v.z <= 4_000_000_000_000_000_000) by (nonlinear_arith)
        requires -2_000_000_000 <= v.z <= 2_000_000_000;
}

/// Distance between two points in whole millimetres.
pub fn dist_mm(a: &Point3Mm, b: &Point3Mm) -> (r: i64)
    requires
        point_in_bounds(*a),
        point_in_bounds(*b),
    ensures
        r == spec_norm(spec_sub(*a, *b)),
        0 <= r <= 4 * MAX_COORD_MM,
{
    let v = point_sub(a, b);
    norm_mm(&v)
}

} // verus!
