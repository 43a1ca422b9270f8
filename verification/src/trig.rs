//! Fixed-point trigonometry.
//!
//! Angles are measured in millidegrees (one degree is 1000 units); sines and
//! cosines are scaled by [`TRIG_ONE`] (so 1.0 becomes 1 000 000).  The
//! functions are piecewise-linear interpolations of a table holding the sine
//! of every whole degree from 0 to 90, and their contracts pin the result to
//! the spec-level definition of that interpolation exactly.  At whole-degree
//! inputs the table value itself is returned.

use vstd::prelude::*;
use crate::num::{div_floor_i64, mod_floor_i64};

verus! {

/// Scale of sine and cosine values: this value stands for 1.0.
pub const TRIG_ONE: i64 = 1000000;

/// Millidegrees in a full turn.
pub const FULL_TURN_MDEG: i64 = 360000;

/// Millidegrees in a quarter turn.
pub const QUARTER_TURN_MDEG: i64 = 90000;

/// Sine of `d` whole degrees, scaled by [`TRIG_ONE`], for `0 <= d <= 90`.
#[verifier::opaque]
pub open spec fn sin_table(d: int) -> int {
    if d <= 0 { 0 }
    else if d <= 1 { 17452 }
    else if d <= 2 { 34899 }
    else if d <= 3 { 52336 }
    else if d <= 4 { 69756 }
    else if d <= 5 { 87156 }
    else if d <= 6 { 104528 }
    else if d <= 7 { 121869 }
    else if d <= 8 { 139173 }
    else if d <= 9 { 156434 }
    else if d <= 10 { 173648 }
    else if d <= 11 { 190809 }
    else if d <= 12 { 207912 }
    else if d <= 13 { 224951 }
    else if d <= 14 { 241922 }
    else if d <= 15 { 258819 }
    else if d <= 16 { 275637 }
    else if d <= 17 { 292372 }
    else if d <= 18 { 309017 }
    else if d <= 19 { 325568 }
    else if d <= 20 { 342020 }
    else if d <= 21 { 358368 }
    else if d <= 22 { 374607 }
    else if d <= 23 { 390731 }
    else if d <= 24 { 406737 }
    else if d <= 25 { 422618 }
    else if d <= 26 { 438371 }
    else if d <= 27 { 453990 }
    else if d <= 28 { 469472 }
    else if d <= 29 { 484810 }
    else if d <= 30 { 500000 }
    else if d <= 31 { 515038 }
    else if d <= 32 { 529919 }
    else if d <= 33 { 544639 }
    else if d <= 34 { 559193 }
    else if d <= 35 { 573576 }
    else if d <= 36 { 587785 }
    else if d <= 37 { 601815 }
    else if d <= 38 { 615661 }
    else if d <= 39 { 629320 }
    else if d <= 40 { 642788 }
    else if d <= 41 { 656059 }
    else if d <= 42 { 669131 }
    else if d <= 43 { 681998 }
    else if d <= 44 { 694658 }
    else if d <= 45 { 707107 }
    else if d <= 46 { 719340 }
    else if d <= 47 { 731354 }
    else if d <= 48 { 743145 }
    else if d <= 49 { 754710 }
    else if d <= 50 { 766044 }
    else if d <= 51 { 777146 }
    else if d <= 52 { 788011 }
    else if d <= 53 { 798636 }
    else if d <= 54 { 809017 }
    else if d <= 55 { 819152 }
    else if d <= 56 { 829038 }
    else if d <= 57 { 838671 }
    else if d <= 58 { 848048 }
    else if d <= 59 { 857167 }
    else if d <= 60 { 866025 }
    else if d <= 61 { 874620 }
    else if d <= 62 { 882948 }
    else if d <= 63 { 891007 }
    else if d <= 64 { 898794 }
    else if d <= 65 { 906308 }
    else if d <= 66 { 913545 }
    else if d <= 67 { 920505 }
    else if d <= 68 { 927184 }
    else if d <= 69 { 933580 }
    else if d <= 70 { 939693 }
    else if d <= 71 { 945519 }
    else if d <= 72 { 951057 }
    else if d <= 73 { 956305 }
    else if d <= 74 { 961262 }
    else if d <= 75 { 965926 }
    else if d <= 76 { 970296 }
    else if d <= 77 { 974370 }
    else if d <= 78 { 978148 }
    else if d <= 79 { 981627 }
    else if d <= 80 { 984808 }
    else if d <= 81 { 987688 }
    else if d <= 82 { 990268 }
    else if d <= 83 { 992546 }
    else if d <= 84 { 994522 }
    else if d <= 85 { 996195 }
    else if d <= 86 { 997564 }
    else if d <= 87 { 998630 }
    else if d <= 88 { 999391 }
    else if d <= 89 { 999848 }
    else { 1000000 }
}

/// Table lookup matching [`sin_table`].
pub fn sin_table_at(d: i64) -> (r: i64)
    requires
        0 <= d <= 90,
    ensures
        r == sin_table(d as int),
        0 <= r <= TRIG_ONE,
{
    proof {
        reveal(sin_table);
    }
    if d <= 0 { 0 }
    else if d <= 1 { 17452 }
    else if d <= 2 { 34899 }
    else if d <= 3 { 52336 }
    else if d <= 4 { 69756 }
    else if d <= 5 { 87156 }
    else if d <= 6 { 104528 }
    else if d <= 7 { 121869 }
    else if d <= 8 { 139173 }
    else if d <= 9 { 156434 }
    else if d <= 10 { 173648 }
    else if d <= 11 { 190809 }
    else if d <= 12 { 207912 }
    else if d <= 13 { 224951 }
    else if d <= 14 { 241922 }
    else if d <= 15 { 258819 }
    else if d <= 16 { 275637 }
    else if d <= 17 { 292372 }
    else if d <= 18 { 309017 }
    else if d <= 19 { 325568 }
    else if d <= 20 { 342020 }
    else if d <= 21 { 358368 }
    else if d <= 22 { 374607 }
    else if d <= 23 { 390731 }
    else if d <= 24 { 406737 }
    else if d <= 25 { 422618 }
    else if d <= 26 { 438371 }
    else if d <= 27 { 453990 }
    else if d <= 28 { 469472 }
    else if d <= 29 { 484810 }
    else if d <= 30 { 500000 }
    else if d <= 31 { 515038 }
    else if d <= 32 { 529919 }
    else if d <= 33 { 544639 }
    else if d <= 34 { 559193 }
    else if d <= 35 { 573576 }
    else if d <= 36 { 587785 }
    else if d <= 37 { 601815 }
    else if d <= 38 { 615661 }
    else if d <= 39 { 629320 }
    else if d <= 40 { 642788 }
    else if d <= 41 { 656059 }
    else if d <= 42 { 669131 }
    else if d <= 43 { 681998 }
    else if d <= 44 { 694658 }
    else if d <= 45 { 707107 }
    else if d <= 46 { 719340 }
    else if d <= 47 { 731354 }
    else if d <= 48 { 743145 }
    else if d <= 49 { 754710 }
    else if d <= 50 { 766044 }
    else if d <= 51 { 777146 }
    else if d <= 52 { 788011 }
    else if d <= 53 { 798636 }
    else if d <= 54 { 809017 }
    else if d <= 55 { 819152 }
    else if d <= 56 { 829038 }
    else if d <= 57 { 838671 }
    else if d <= 58 { 848048 }
    else if d <= 59 { 857167 }
    else if d <= 60 { 866025 }
    else if d <= 61 { 874620 }
    else if d <= 62 { 882948 }
    else if d <= 63 { 891007 }
    else if d <= 64 { 898794 }
    else if d <= 65 { 906308 }
    else if d <= 66 { 913545 }
    else if d <= 67 { 920505 }
    else if d <= 68 { 927184 }
    else if d <= 69 { 933580 }
    else if d <= 70 { 939693 }
    else if d <= 71 { 945519 }
    else if d <= 72 { 951057 }
    else if d <= 73 { 956305 }
    else if d <= 74 { 961262 }
    else if d <= 75 { 965926 }
    else if d <= 76 { 970296 }
    else if d <= 77 { 974370 }
    else if d <= 78 { 978148 }
    else if d <= 79 { 981627 }
    else if d <= 80 { 984808 }
    else if d <= 81 { 987688 }
    else if d <= 82 { 990268 }
    else if d <= 83 { 992546 }
    else if d <= 84 { 994522 }
    else if d <= 85 { 996195 }
    else if d <= 86 { 997564 }
    else if d <= 87 { 998630 }
    else if d <= 88 { 999391 }
    else if d <= 89 { 999848 }
    else { 1000000 }
}

/// Piecewise-linear sine over the first quadrant, in millidegrees.
pub open spec fn sin_q(a: int) -> int
    recommends
        0 <= a <= 90000,
{
    let d = a / 1000;
    let f = a % 1000;
    sin_table(d) + f * (sin_table(d + 1) - sin_table(d)) / 1000
}

/// Sine of any angle in millidegrees, by reduction into the first quadrant.
pub open spec fn spec_sin_mdeg(a: int) -> int {
    let n = a % 360000;
    if n <= 90000 {
        sin_q(n)
    } else if n <= 180000 {
        sin_q(180000 - n)
    } else if n <= 270000 {
        -sin_q(n - 180000)
    } else {
        -sin_q(360000 - n)
    }
}

/// Cosine of any angle in millidegrees.
pub open spec fn spec_cos_mdeg(a: int) -> int {
    spec_sin_mdeg(a + 90000)
}

/// The interpolated value lies between the two table entries it mixes.
proof fn lemma_lerp_bounds(f: int, lo: int, hi: int)
    requires
        0 <= f < 1000,
    ensures
        lo <= hi ==> lo <= lo + f * (hi - lo) / 1000 <= hi,
        lo > hi ==> hi <= lo + f * (hi - lo) / 1000 <= lo,
{
    let d = hi - lo;
    if d >= 0 {
        assert(0 <= f * d <= 1000 * d) by (nonlinear_arith)
            requires 0 <= f < 1000 && d >= 0;
        vstd::arithmetic::div_mod::lemma_div_pos_is_pos(f * d, 1000);
        vstd::arithmetic::div_mod::lemma_div_is_ordered(f * d, 1000 * d, 1000);
        vstd::arithmetic::div_mod::lemma_div_multiples_vanish(d, 1000);
    } else {
        assert(1000 * d <= f * d <= 0) by (nonlinear_arith)
            requires 0 <= f < 1000 && d < 0;
        vstd::arithmetic::div_mod::lemma_div_is_ordered(1000 * d, f * d, 1000);
        vstd::arithmetic::div_mod::lemma_div_is_ordered(f * d, 0, 1000);
        vstd::arithmetic::div_mod::lemma_div_multiples_vanish(d, 1000);
        vstd::arithmetic::div_mod::lemma_div_of0(1000);
    }
}

/// Sine over the first quadrant; the result equals [`sin_q`].
fn sin_q_at(a: i64) -> (r: i64)
    requires
        0 <= a <= 90000,
    ensures
        r == sin_q(a as int),
        0 <= r <= TRIG_ONE,
{
    let d: i64 = div_floor_i64(a, 1000);
    let f: i64 = mod_floor_i64(a, 1000);
    proof {
        vstd::arithmetic::div_mod::lemma_div_is_ordered(a as int, 90000, 1000);
        vstd::arithmetic::div_mod::lemma_div_pos_is_pos(a as int, 1000);
    }
    let s0: i64 = sin_table_at(d);
    let s1: i64 = if d == 90 { 1000000 } else { sin_table_at(d + 1) };
    proof {
        if d == 90 {
            assert(f == 0) by {
                vstd::arithmetic::div_mod::lemma_fundamental_div_mod(a as int, 1000);
            };
        }
        lemma_lerp_bounds(f as int, s0 as int, s1 as int);
    }
    let q: i64 = div_floor_i64(f * (s1 - s0), 1000);
    s0 + q
}

/// Sine of an angle in millidegrees; the result equals [`spec_sin_mdeg`].
pub fn sin_mdeg(a: i64) -> (r: i64)
    ensures
        r == spec_sin_mdeg(a as int),
        -TRIG_ONE <= r <= TRIG_ONE,
{
    let n: i64 = mod_floor_i64(a, 360000);
    if n <= 90000 {
        sin_q_at(n)
    } else if n <= 180000 {
        sin_q_at(180000 - n)
    } else if n <= 270000 {
        -sin_q_at(n - 180000)
    } else {
        -sin_q_at(360000 - n)
    }
}

/// Cosine of an angle in millidegrees; the result equals [`spec_cos_mdeg`].
pub fn cos_mdeg(a: i64) -> (r: i64)
    requires
        a + 90000 <= i64::MAX,
    ensures
        r == spec_cos_mdeg(a as int),
        -TRIG_ONE <= r <= TRIG_ONE,
{
    sin_mdeg(a + 90000)
}

/// Cosine of `d` whole degrees: the sine table read backwards.
pub open spec fn cos_table(d: int) -> int {
    sin_table(90 - d)
}

/// The per-degree sine table grows strictly from 0 up to [`TRIG_ONE`].
pub proof fn lemma_sin_table_increasing()
    ensures
        forall|d: int| 0 <= d < 90 ==> sin_table(d) < #[trigger] sin_table(d + 1),
{
    reveal(sin_table);
}

/// Table lookup matching [`cos_table`].
pub fn cos_table_at(d: i64) -> (r: i64)
    requires
        0 <= d <= 90,
    ensures
        r == cos_table(d as int),
        0 <= r <= TRIG_ONE,
{
    sin_table_at(90 - d)
}

/// Arc cosine of a nonnegative scaled cosine: find the whole-degree segment
/// whose table values bracket `c`, then interpolate within it.
pub open spec fn acos_seg(c: int, d: int) -> int
    recommends
        0 <= c < 1000000,
        0 <= d <= 89,
    decreases 90 - d,
{
    if d >= 89 || c >= cos_table(d + 1) {
        d * 1000 + (cos_table(d) - c) * 1000 / (cos_table(d) - cos_table(d + 1))
    } else {
        acos_seg(c, d + 1)
    }
}

/// Arc cosine in millidegrees of a cosine scaled by [`TRIG_ONE`].
pub open spec fn spec_acos_mdeg(c: int) -> int {
    if c >= 1000000 {
        0
    } else if c <= -1000000 {
        180000
    } else if c >= 0 {
        acos_seg(c, 0)
    } else {
        180000 - acos_seg(-c, 0)
    }
}

/// Arc cosine over the first quadrant; the result equals [`spec_acos_mdeg`].
fn acos_nonneg(c: i64) -> (r: i64)
    requires
        0 <= c <= 1000000,
    ensures
        r == spec_acos_mdeg(c as int),
        0 <= r <= 90000,
{
    if c >= 1000000 {
        return 0;
    }
    proof {
        reveal(sin_table);
        assert(cos_table(0) == 1000000);
        assert(cos_table(90) == 0);
    }
    let mut d: i64 = 0;
    loop
        invariant
            0 <= d <= 89,
            0 <= c < 1000000,
            c < cos_table(d as int),
            acos_seg(c as int, 0) == acos_seg(c as int, d as int),
        ensures
            0 <= d <= 89,
            c < cos_table(d as int),
            acos_seg(c as int, 0) == acos_seg(c as int, d as int),
            d >= 89 || c >= cos_table(d as int + 1),
        decreases 89 - d,
    {
        if d >= 89 {
            break;
        }
        let next: i64 = cos_table_at(d + 1);
        if c >= next {
            break;
        }
        proof {
            assert(acos_seg(c as int, d as int) == acos_seg(c as int, d as int + 1));
        }
        d = d + 1;
    }
    let s0: i64 = cos_table_at(d);
    let s1: i64 = cos_table_at(d + 1);
    proof {
        lemma_sin_table_increasing();
        assert(cos_table(d as int) > cos_table(d as int + 1));
        if d >= 89 {
            assert(cos_table(90) == 0);
        }
        let n = (s0 - c) as int * 1000;
        let den = (s0 - s1) as int;
        assert(c >= s1);
        assert(n <= den * 1000);
        vstd::arithmetic::div_mod::lemma_div_pos_is_pos(n, den);
        vstd::arithmetic::div_mod::lemma_div_is_ordered(n, den * 1000, den);
        vstd::arithmetic::div_mod::lemma_div_multiples_vanish(1000, den);
    }
    let frac: i64 = div_floor_i64((s0 - c) * 1000, s0 - s1);
    d * 1000 + frac
}

/// Arc cosine in millidegrees; the result equals [`spec_acos_mdeg`] and lies
/// in `[0, 180000]`.
pub fn acos_mdeg(c: i64) -> (r: i64)
    requires
        -1000000 <= c <= 1000000,
    ensures
        r == spec_acos_mdeg(c as int),
        0 <= r <= 180000,
        c >= 0 ==> r <= 90000,
{
    if c < 0 {
        180000 - acos_nonneg(-c)
    } else {
        acos_nonneg(c)
    }
}

} // verus!
