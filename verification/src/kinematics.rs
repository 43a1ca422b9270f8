//! Boom and hook kinematics.
//!
//! Pure functions from boom length, boom angle, swing angle, pivot height and
//! hoist length to world positions and back.  The swing angle is a compass
//! bearing measured clockwise from the Y axis (0 degrees is forward); the
//! boom angle is measured up from horizontal.  Angles are millidegrees,
//! lengths millimetres.

use vstd::prelude::*;
use crate::geom::{Point3Mm, Vec3Mm, point_in_bounds, vec_in_bounds, MAX_COORD_MM};
use crate::num::{abs_int, div_floor_i64, spec_isqrt};
use crate::trig::{
    acos_mdeg, cos_mdeg, sin_mdeg, spec_acos_mdeg, spec_cos_mdeg, spec_sin_mdeg, TRIG_ONE,
};

verus! {

/// Longest boom and hoist the engine accepts: 1 km.
pub const MAX_LEN_MM: i64 = 1_000_000;

/// Largest angle magnitude a caller hands in: a thousand turns.
pub const MAX_ANGLE_MDEG: i64 = 360_000_000;

/// Largest angle magnitude the positional functions work with: wide enough
/// for sums of bounded headings, swings and sampled spans.
pub const MAX_SUM_ANGLE_MDEG: i64 = 2_000_000_000;

/// Scaled projection of a length onto a trigonometric factor: `l * t` at
/// scale [`TRIG_ONE`], rounded down to a whole millimetre.
pub open spec fn spec_scale(l: int, t: int) -> int {
    l * t / (TRIG_ONE as int)
}

/// The boom tip position: the pivot sits `pivot_height` above the base, the
/// boom reaches `l * cos(boom)` horizontally, rotated by the swing bearing,
/// and `l * sin(boom)` vertically.
pub open spec fn spec_boom_tip(
    base: Point3Mm,
    boom_length_mm: int,
    boom_angle_mdeg: int,
    swing_angle_mdeg: int,
    pivot_height_mm: int,
) -> Point3Mm {
    let horizontal = spec_scale(boom_length_mm, spec_cos_mdeg(boom_angle_mdeg));
    let vertical = spec_scale(boom_length_mm, spec_sin_mdeg(boom_angle_mdeg));
    Point3Mm {
        x: (base.x + spec_scale(horizontal, spec_sin_mdeg(swing_angle_mdeg))) as i64,
        y: (base.y + spec_scale(horizontal, spec_cos_mdeg(swing_angle_mdeg))) as i64,
        z: (base.z + pivot_height_mm + vertical) as i64,
    }
}

/// The hook position: the boom tip with the hoist cable hanging straight
/// down.
pub open spec fn spec_hook_position(
    base: Point3Mm,
    boom_length_mm: int,
    boom_angle_mdeg: int,
    swing_angle_mdeg: int,
    pivot_height_mm: int,
    hoist_length_mm: int,
) -> Point3Mm {
    let tip = spec_boom_tip(base, boom_length_mm, boom_angle_mdeg, swing_angle_mdeg,
        pivot_height_mm);
    Point3Mm { x: tip.x, y: tip.y, z: (tip.z - hoist_length_mm) as i64 }
}

/// Multiply a bounded length by a trigonometric factor and rescale.
pub fn scale_trig(l: i64, t: i64) -> (r: i64)
    requires
        -4 * MAX_COORD_MM <= l <= 4 * MAX_COORD_MM,
        -TRIG_ONE <= t <= TRIG_ONE,
    ensures
        r == spec_scale(l as int, t as int),
        -4 * MAX_COORD_MM <= r <= 4 * MAX_COORD_MM,
{
    proof {
        assert(-4_000_000_000_000_000 <= (l as int) * (t as int) <= 4_000_000_000_000_000)
            by (nonlinear_arith)
            requires
                -4_000_000_000 <= l <= 4_000_000_000 && -1_000_000 <= t <= 1_000_000;
        vstd::arithmetic::div_mod::lemma_div_is_ordered(
            (l as int) * (t as int), 4_000_000_000_000_000, 1_000_000);
        vstd::arithmetic::div_mod::lemma_div_is_ordered(
            -4_000_000_000_000_000, (l as int) * (t as int), 1_000_000);
        vstd::arithmetic::div_mod::lemma_div_multiples_vanish(-4_000_000_000, 1_000_000);
        vstd::arithmetic::div_mod::lemma_div_multiples_vanish(4_000_000_000, 1_000_000);
    }
    div_floor_i64(l * t, 1000000)
}

/// Boom tip position from the crane geometry; the result equals
/// [`spec_boom_tip`].
pub fn calculate_boom_tip_position(
    crane_base: Point3Mm,
    boom_length_mm: i64,
    boom_angle_mdeg: i64,
    swing_angle_mdeg: i64,
    boom_pivot_height_mm: i64,
) -> (p: Point3Mm)
    requires
        point_in_bounds(crane_base),
        0 <= boom_length_mm <= MAX_LEN_MM,
        -MAX_SUM_ANGLE_MDEG <= boom_angle_mdeg <= MAX_SUM_ANGLE_MDEG,
        -MAX_SUM_ANGLE_MDEG <= swing_angle_mdeg <= MAX_SUM_ANGLE_MDEG,
        0 <= boom_pivot_height_mm <= MAX_LEN_MM,
    ensures
        p == spec_boom_tip(crane_base, boom_length_mm as int, boom_angle_mdeg as int,
            swing_angle_mdeg as int, boom_pivot_height_mm as int),
        -6 * MAX_COORD_MM <= p.x <= 6 * MAX_COORD_MM,
        -6 * MAX_COORD_MM <= p.y <= 6 * MAX_COORD_MM,
        -6 * MAX_COORD_MM <= p.z <= 6 * MAX_COORD_MM,
{
    let cos_boom = cos_mdeg(boom_angle_mdeg);
    let sin_boom = sin_mdeg(boom_angle_mdeg);
    let horizontal = scale_trig(boom_length_mm, cos_boom);
    let vertical = scale_trig(boom_length_mm, sin_boom);
    let sin_swing = sin_mdeg(swing_angle_mdeg);
    let cos_swing = cos_mdeg(swing_angle_mdeg);
    let x = crane_base.x + scale_trig(horizontal, sin_swing);
    let y = crane_base.y + scale_trig(horizontal, cos_swing);
    let z = crane_base.z + boom_pivot_height_mm + vertical;
    Point3Mm { x, y, z }
}

/// Hook position: the boom tip lowered by the hoist length; the result
/// equals [`spec_hook_position`].
pub fn calculate_hook_position(
    crane_base: Point3Mm,
    boom_length_mm: i64,
    boom_angle_mdeg: i64,
    swing_angle_mdeg: i64,
    boom_pivot_height_mm: i64,
    hoist_length_mm: i64,
) -> (p: Point3Mm)
    requires
        point_in_bounds(crane_base),
        0 <= boom_length_mm <= MAX_LEN_MM,
        -MAX_SUM_ANGLE_MDEG <= boom_angle_mdeg <= MAX_SUM_ANGLE_MDEG,
        -MAX_SUM_ANGLE_MDEG <= swing_angle_mdeg <= MAX_SUM_ANGLE_MDEG,
        0 <= boom_pivot_height_mm <= MAX_LEN_MM,
        0 <= hoist_length_mm <= MAX_LEN_MM,
    ensures
        p == spec_hook_position(crane_base, boom_length_mm as int, boom_angle_mdeg as int,
            swing_angle_mdeg as int, boom_pivot_height_mm as int, hoist_length_mm as int),
        -7 * MAX_COORD_MM <= p.x <= 7 * MAX_COORD_MM,
        -7 * MAX_COORD_MM <= p.y <= 7 * MAX_COORD_MM,
        -7 * MAX_COORD_MM <= p.z <= 7 * MAX_COORD_MM,
{
    let tip = calculate_boom_tip_position(crane_base, boom_length_mm, boom_angle_mdeg,
        swing_angle_mdeg, boom_pivot_height_mm);
    Point3Mm { x: tip.x, y: tip.y, z: tip.z - hoist_length_mm }
}

/// The planar angle of the right triangle with legs `y` (rise) and `x`
/// (run), in millidegrees: the arc cosine of the run over the hypotenuse,
/// signed by the rise.  Zero when both legs are zero.
pub open spec fn spec_rise_run_angle(y: int, x: int) -> int {
    if x == 0 && y == 0 {
        0
    } else {
        let hyp = spec_isqrt(x * x + y * y);
        let c = x * (TRIG_ONE as int) / hyp;
        if y >= 0 {
            spec_acos_mdeg(c)
        } else {
            -spec_acos_mdeg(c)
        }
    }
}

/// Angle above the horizontal of the line with rise `y` and run `x >= 0`.
pub fn rise_run_angle_mdeg(y: i64, x: i64) -> (r: i64)
    requires
        0 <= x <= 2 * MAX_COORD_MM,
        -2 * MAX_COORD_MM <= y <= 2 * MAX_COORD_MM,
    ensures
        r == spec_rise_run_angle(y as int, x as int),
        -90000 <= r <= 90000,
{
    if x == 0 && y == 0 {
        return 0;
    }
    proof {
        assert(0 <= (x as int) * (x as int) <= 4_000_000_000_000_000_000) by (nonlinear_arith)
            requires 0 <= x <= 2_000_000_000;
        assert(0 <= (y as int) * (y as int) <= 4_000_000_000_000_000_000) by (nonlinear_arith)
            requires -2_000_000_000 <= y <= 2_000_000_000;
    }
    let xx: u64 = (x as u64) * (x as u64);
    let yy: u64 = ((y as i128 * y as i128) as u64);
    let n: u64 = xx + yy;
    let hyp: u64 = crate::num::isqrt_u64(n);
    proof {
        assert((x as int) * (x as int) + (y as int) * (y as int) >= 1) by (nonlinear_arith)
            requires !(x == 0 && y == 0);
        assert(n >= 1);
        assert(hyp >= 1) by (nonlinear_arith)
            requires (hyp as int + 1) * (hyp as int + 1) > n as int && n >= 1 && hyp >= 0;
        assert(x <= hyp) by (nonlinear_arith)
            requires
                (hyp as int) * (hyp as int) <= n as int
                    && n as int >= (x as int) * (x as int) && 0 <= x && 0 <= hyp
                    && (n as int) < (hyp as int + 1) * (hyp as int + 1);
        assert((x as int) * 1_000_000 <= (hyp as int) * 1_000_000);
        vstd::arithmetic::div_mod::lemma_div_is_ordered(
            (x as int) * 1_000_000, (hyp as int) * 1_000_000, hyp as int);
        vstd::arithmetic::div_mod::lemma_div_multiples_vanish(1_000_000, hyp as int);
        vstd::arithmetic::div_mod::lemma_div_pos_is_pos((x as int) * 1_000_000, hyp as int);
    }
    let c: i64 = ((x as u64) * 1_000_000 / hyp) as i64;
    let a = acos_mdeg(c);
    if y >= 0 {
        a
    } else {
        -a
    }
}

/// The boom angle that puts the hook at a target radius and height, if the
/// target is reachable.
///
/// The boom tip must sit `target_hook_height + hoist_length` above the
/// ground, which is `height_from_pivot = target_hook_height + hoist_length -
/// pivot_height` above the pivot.  The target is reachable exactly when the
/// straight-line distance from the pivot, `sqrt(radius^2 +
/// height_from_pivot^2)`, is at most the boom length; the angle is then the
/// rise-over-run angle of that line.  `None` exactly on unreachable targets.
pub fn calculate_boom_angle_for_height(
    boom_length_mm: i64,
    target_radius_mm: i64,
    target_hook_height_mm: i64,
    boom_pivot_height_mm: i64,
    hoist_length_mm: i64,
) -> (r: Option<i64>)
    requires
        0 <= boom_length_mm <= MAX_LEN_MM,
        0 <= target_radius_mm <= MAX_COORD_MM,
        -MAX_COORD_MM <= target_hook_height_mm <= MAX_COORD_MM,
        0 <= boom_pivot_height_mm <= MAX_LEN_MM,
        0 <= hoist_length_mm <= MAX_LEN_MM,
    ensures
        ({
            let h = target_hook_height_mm + hoist_length_mm - boom_pivot_height_mm;
            let reachable = target_radius_mm * target_radius_mm + h * h
                <= boom_length_mm * boom_length_mm;
            &&& r is Some <==> reachable
            &&& r is Some ==> r->0 == spec_rise_run_angle(h, target_radius_mm as int)
                && -90000 <= r->0 <= 90000
        }),
{
    let height_from_pivot: i64 = target_hook_height_mm + hoist_length_mm - boom_pivot_height_mm;
    proof {
        assert(0 <= (target_radius_mm as int) * (target_radius_mm as int)
            <= 1_000_000_000_000_000_000) by (nonlinear_arith)
            requires 0 <= target_radius_mm <= 1_000_000_000;
        assert(0 <= (height_from_pivot as int) * (height_from_pivot as int)
            <= 4_120_900_000_000_000_000) by (nonlinear_arith)
            requires -2_030_000_000 <= height_from_pivot <= 2_030_000_000;
        assert(0 <= (boom_length_mm as int) * (boom_length_mm as int)
            <= 1_000_000_000_000_000_000) by (nonlinear_arith)
            requires 0 <= boom_length_mm <= 1_000_000_000;
    }
    let rr: i128 = (target_radius_mm as i128) * (target_radius_mm as i128);
    let hh: i128 = (height_from_pivot as i128) * (height_from_pivot as i128);
    let ll: i128 = (boom_length_mm as i128) * (boom_length_mm as i128);
    if rr + hh > ll {
        return None;
    }
    proof {
        assert(-2_000_000_000 <= height_from_pivot <= 2_000_000_000) by (nonlinear_arith)
            requires
                (height_from_pivot as int) * (height_from_pivot as int)
                    <= 1_000_000_000_000_000_000;
    }
    Some(rise_run_angle_mdeg(height_from_pivot, target_radius_mm))
}

/// The swing bearing of sample `i` of `n`: `n - 1` equal steps from `start`
/// to `end`, with a single sample resting at `start`.
pub open spec fn spec_swing_sample(start: int, end: int, n: int, i: int) -> int {
    if n <= 1 {
        start
    } else {
        start + (end - start) * i / (n - 1)
    }
}

/// Hook positions sampled along a swing from `swing_start_mdeg` to
/// `swing_end_mdeg`.
///
/// `num_steps` samples are returned; with fewer than two steps no division
/// of the arc is possible, so a single requested sample rests at the start
/// bearing and zero samples give an empty path.
pub fn calculate_swing_path(
    crane_base: Point3Mm,
    boom_length_mm: i64,
    boom_angle_mdeg: i64,
    swing_start_mdeg: i64,
    swing_end_mdeg: i64,
    boom_pivot_height_mm: i64,
    hoist_length_mm: i64,
    num_steps: usize,
) -> (path: Vec<Point3Mm>)
    requires
        point_in_bounds(crane_base),
        0 <= boom_length_mm <= MAX_LEN_MM,
        -MAX_ANGLE_MDEG <= boom_angle_mdeg <= MAX_ANGLE_MDEG,
        -MAX_ANGLE_MDEG <= swing_start_mdeg <= MAX_ANGLE_MDEG,
        -MAX_ANGLE_MDEG <= swing_end_mdeg <= MAX_ANGLE_MDEG,
        0 <= boom_pivot_height_mm <= MAX_LEN_MM,
        0 <= hoist_length_mm <= MAX_LEN_MM,
        num_steps <= 1_000_000_000,
    ensures
        path@.len() == num_steps,
        forall|i: int| 0 <= i < num_steps ==> path@[i] == spec_hook_position(
            crane_base, boom_length_mm as int, boom_angle_mdeg as int,
            spec_swing_sample(swing_start_mdeg as int, swing_end_mdeg as int, num_steps as int, i),
            boom_pivot_height_mm as int, hoist_length_mm as int),
{
    let mut path: Vec<Point3Mm> = Vec::new();
    let mut i: usize = 0;
    while i < num_steps
        invariant
            0 <= i <= num_steps,
            path@.len() == i,
            point_in_bounds(crane_base),
            0 <= boom_length_mm <= MAX_LEN_MM,
            -MAX_ANGLE_MDEG <= boom_angle_mdeg <= MAX_ANGLE_MDEG,
            -MAX_ANGLE_MDEG <= swing_start_mdeg <= MAX_ANGLE_MDEG,
            -MAX_ANGLE_MDEG <= swing_end_mdeg <= MAX_ANGLE_MDEG,
            0 <= boom_pivot_height_mm <= MAX_LEN_MM,
            0 <= hoist_length_mm <= MAX_LEN_MM,
            num_steps <= 1_000_000_000,
            forall|j: int| 0 <= j < i ==> path@[j] == spec_hook_position(
                crane_base, boom_length_mm as int, boom_angle_mdeg as int,
                spec_swing_sample(swing_start_mdeg as int, swing_end_mdeg as int,
                    num_steps as int, j),
                boom_pivot_height_mm as int, hoist_length_mm as int),
        decreases num_steps - i,
    {
        let swing: i64 = if num_steps <= 1 {
            swing_start_mdeg
        } else {
            proof {
                lemma_swing_sample_bounds(swing_start_mdeg as int, swing_end_mdeg as int,
                    num_steps as int, i as int);
                assert(-720_000_000_000_000_000 <= (swing_end_mdeg - swing_start_mdeg) * (i as int)
                    <= 720_000_000_000_000_000) by (nonlinear_arith)
                    requires
                        -720_000_000 <= swing_end_mdeg - swing_start_mdeg <= 720_000_000
                            && 0 <= i as int <= 1_000_000_000;
            }
            let span: i64 = swing_end_mdeg - swing_start_mdeg;
            let step: i64 = crate::num::div_floor_i128(
                (span as i128) * (i as i128), (num_steps - 1) as i128) as i64;
            swing_start_mdeg + step
        };
        let p = calculate_hook_position(crane_base, boom_length_mm, boom_angle_mdeg, swing,
            boom_pivot_height_mm, hoist_length_mm);
        path.push(p);
        i = i + 1;
    }
    path
}

/// A sampled swing bearing stays between the two end bearings.
proof fn lemma_swing_sample_bounds(start: int, end: int, n: int, i: int)
    requires
        2 <= n,
        0 <= i < n,
        -MAX_ANGLE_MDEG <= start <= MAX_ANGLE_MDEG,
        -MAX_ANGLE_MDEG <= end <= MAX_ANGLE_MDEG,
    ensures
        -2 * MAX_ANGLE_MDEG <= (end - start) * i / (n - 1) <= 2 * MAX_ANGLE_MDEG,
{
    let span = end - start;
    assert(-720_000_000 * (n - 1) <= span * i <= 720_000_000 * (n - 1)) by (nonlinear_arith)
        requires -720_000_000 <= span <= 720_000_000 && 0 <= i <= n - 1;
    assert(span * i / (n - 1) <= 720_000_000) by {
        vstd::arithmetic::div_mod::lemma_div_is_ordered(span * i, 720_000_000 * (n - 1), n - 1);
        vstd::arithmetic::div_mod::lemma_div_multiples_vanish(720_000_000, n - 1);
    };
    assert(span * i / (n - 1) >= -720_000_000) by {
        vstd::arithmetic::div_mod::lemma_div_is_ordered(-720_000_000 * (n - 1), span * i, n - 1);
        vstd::arithmetic::div_mod::lemma_div_multiples_vanish(-720_000_000, n - 1);
    };
    assert(-720_000_000 * (n - 1) >= -720_000_000 * n && 720_000_000 * (n - 1) <= 720_000_000 * n)
        by (nonlinear_arith)
        requires n >= 2;
}

/// The hoist length that puts the hook at a target height: the drop from the
/// boom tip, never negative.
pub fn calculate_hoist_length_for_height(
    boom_tip_height_mm: i64,
    target_hook_height_mm: i64,
) -> (r: i64)
    requires
        -MAX_COORD_MM <= boom_tip_height_mm <= MAX_COORD_MM,
        -MAX_COORD_MM <= target_hook_height_mm <= MAX_COORD_MM,
    ensures
        r == if boom_tip_height_mm - target_hook_height_mm >= 0 {
            boom_tip_height_mm - target_hook_height_mm
        } else {
            0
        },
{
    if boom_tip_height_mm >= target_hook_height_mm {
        boom_tip_height_mm - target_hook_height_mm
    } else {
        0
    }
}

/// Axis-aligned overlap of the load box hanging under a hook sample and an
/// obstacle box, both grown by the clearance margin.
pub open spec fn spec_boxes_collide(
    hook: Point3Mm,
    load_dims: Vec3Mm,
    obstacle_position: Point3Mm,
    obstacle_dims: Vec3Mm,
    margin_mm: int,
) -> bool {
    let cx = hook.x;
    let cy = hook.y;
    let cz = hook.z - load_dims.z / 2;
    let hx = load_dims.x / 2 + margin_mm;
    let hy = load_dims.y / 2 + margin_mm;
    let hz = load_dims.z / 2 + margin_mm;
    let ox = obstacle_dims.x / 2 + margin_mm;
    let oy = obstacle_dims.y / 2 + margin_mm;
    let oz = obstacle_dims.z / 2 + margin_mm;
    &&& abs_int(cx - obstacle_position.x) < hx + ox
    &&& abs_int(cy - obstacle_position.y) < hy + oy
    &&& abs_int(cz - obstacle_position.z) < hz + oz
}

/// Coordinates within seven times [`MAX_COORD_MM`]: what a hook position
/// computed from in-bounds inputs can reach.
pub open spec fn point_in_bounds_wide(p: Point3Mm) -> bool {
    -7 * MAX_COORD_MM <= p.x <= 7 * MAX_COORD_MM && -7 * MAX_COORD_MM <= p.y <= 7 * MAX_COORD_MM
        && -7 * MAX_COORD_MM <= p.z <= 7 * MAX_COORD_MM
}

/// Whether a load swung along `hook_path` clears an obstacle: true exactly
/// when no sampled position collides.  The check is sample-based; it says
/// nothing about positions between samples.
pub fn check_clearance(
    hook_path: &Vec<Point3Mm>,
    load_dims: Vec3Mm,
    obstacle_position: Point3Mm,
    obstacle_dims: Vec3Mm,
    clearance_margin_mm: i64,
) -> (clear: bool)
    requires
        forall|i: int| 0 <= i < hook_path@.len() ==> point_in_bounds_wide(#[trigger] hook_path@[i]),
        vec_in_bounds(load_dims),
        0 <= load_dims.x && 0 <= load_dims.y && 0 <= load_dims.z,
        point_in_bounds(obstacle_position),
        vec_in_bounds(obstacle_dims),
        0 <= obstacle_dims.x && 0 <= obstacle_dims.y && 0 <= obstacle_dims.z,
        0 <= clearance_margin_mm <= MAX_COORD_MM,
    ensures
        clear <==> forall|i: int| 0 <= i < hook_path@.len() ==> !spec_boxes_collide(
            hook_path@[i], load_dims, obstacle_position, obstacle_dims,
            clearance_margin_mm as int),
{
    let n = hook_path.len();
    let mut i: usize = 0;
    while i < n
        invariant
            0 <= i <= n,
            n == hook_path@.len(),
            forall|i: int| 0 <= i < hook_path@.len()
                ==> point_in_bounds_wide(#[trigger] hook_path@[i]),
            vec_in_bounds(load_dims),
            0 <= load_dims.x && 0 <= load_dims.y && 0 <= load_dims.z,
            point_in_bounds(obstacle_position),
            vec_in_bounds(obstacle_dims),
            0 <= obstacle_dims.x && 0 <= obstacle_dims.y && 0 <= obstacle_dims.z,
            0 <= clearance_margin_mm <= MAX_COORD_MM,
            forall|j: int| 0 <= j < i ==> !spec_boxes_collide(hook_path@[j], load_dims,
                obstacle_position, obstacle_dims, clearance_margin_mm as int),
        decreases n - i,
    {
        let hook = hook_path[i];
        let cx: i64 = hook.x;
        let cy: i64 = hook.y;
        let half_lx: i64 = ((load_dims.x as u64) / 2) as i64;
        let half_ly: i64 = ((load_dims.y as u64) / 2) as i64;
        let half_lz: i64 = ((load_dims.z as u64) / 2) as i64;
        let half_ox: i64 = ((obstacle_dims.x as u64) / 2) as i64;
        let half_oy: i64 = ((obstacle_dims.y as u64) / 2) as i64;
        let half_oz: i64 = ((obstacle_dims.z as u64) / 2) as i64;
        let cz: i64 = hook.z - half_lz;
        let hx: i64 = half_lx + clearance_margin_mm;
        let hy: i64 = half_ly + clearance_margin_mm;
        let hz: i64 = half_lz + clearance_margin_mm;
        let ox: i64 = half_ox + clearance_margin_mm;
        let oy: i64 = half_oy + clearance_margin_mm;
        let oz: i64 = half_oz + clearance_margin_mm;
        let dx: i64 = if cx >= obstacle_position.x { cx - obstacle_position.x } else {
            obstacle_position.x - cx
        };
        let dy: i64 = if cy >= obstacle_position.y { cy - obstacle_position.y } else {
            obstacle_position.y - cy
        };
        let dz: i64 = if cz >= obstacle_position.z { cz - obstacle_position.z } else {
            obstacle_position.z - cz
        };
        if dx < hx + ox && dy < hy + oy && dz < hz + oz {
            return false;
        }
        i = i + 1;
    }
    true
}

} // verus!
