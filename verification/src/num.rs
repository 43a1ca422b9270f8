//! Integer arithmetic helpers shared by the whole engine: integer square
//! root, floor division and multiply-then-divide on wide intermediates.

use vstd::prelude::*;

verus! {

/// `r` is the integer square root of `n`: the greatest integer whose square
/// does not exceed `n`.
pub open spec fn is_isqrt(n: int, r: int) -> bool {
    0 <= r && r * r <= n < (r + 1) * (r + 1)
}

/// Integer square root by bisection.
pub fn isqrt_u64(n: u64) -> (r: u64)
    ensures
        is_isqrt(n as int, r as int),
        r == spec_isqrt(n as int),
{
    let mut lo: u64 = 0;
    let mut hi: u64 = if n < 65536 { 256 } else { 4294967296u64 };
    // invariant: lo*lo <= n < hi*hi
    proof {
        assert(0 <= n < 65536 ==> n < 256 * 256) by (nonlinear_arith);
        assert(n < 4294967296u64 * 4294967296u64) by (nonlinear_arith);
    }
    while hi - lo > 1
        invariant
            lo < hi,
            lo * lo <= n,
            n < hi * hi,
            hi <= 4294967296u64,
        decreases hi - lo,
    {
        let mid: u64 = lo + (hi - lo) / 2;
        proof {
            assert(mid < hi);
            assert(mid * mid < hi * hi) by (nonlinear_arith)
                requires 0 <= mid < hi;
            assert(hi * hi <= 4294967296u64 * 4294967296u64) by (nonlinear_arith)
                requires 0 < hi <= 4294967296u64;
        }
        if mid * mid <= n {
            lo = mid;
        } else {
            hi = mid;
        }
    }
    proof {
        lemma_isqrt_is_isqrt(n as int);
        lemma_isqrt_unique(n as int, lo as int, spec_isqrt(n as int));
    }
    lo
}

/// Floor division of a signed value by a positive divisor, agreeing with
/// mathematical integer division (`a / b` on `int`, which rounds toward
/// negative infinity for a positive divisor).
pub fn div_floor_i128(a: i128, b: i128) -> (r: i128)
    requires
        0 < b,
        -0x7fff_ffff_ffff_ffff_ffff_ffff_ffff_ffff <= a,
    ensures
        r == a as int / b as int,
{
    if a >= 0 {
        let q: u128 = (a as u128) / (b as u128);
        proof {
            vstd::arithmetic::div_mod::lemma_fundamental_div_mod(a as int, b as int);
            vstd::arithmetic::div_mod::lemma_div_pos_is_pos(a as int, b as int);
            vstd::arithmetic::div_mod::lemma_div_is_ordered_by_denominator(a as int, 1, b as int);
            vstd::arithmetic::div_mod::lemma_div_by_self(b as int);
        }
        q as i128
    } else {
        let m: u128 = (-a) as u128;
        let q: u128 = m / b as u128;
        let rem: u128 = m % b as u128;
        proof {
            vstd::arithmetic::div_mod::lemma_fundamental_div_mod(m as int, b as int);
            let qi = m as int / b as int;
            let ri = m as int % b as int;
            if ri == 0 {
                assert(a as int == (-qi) * b + 0) by (nonlinear_arith)
                    requires m as int == qi * b && a as int == -(m as int);
                vstd::arithmetic::div_mod::lemma_fundamental_div_mod_converse(
                    a as int, b as int, -qi, 0);
            } else {
                assert(a as int == (-qi - 1) * b + (b - ri)) by (nonlinear_arith)
                    requires m as int == qi * b + ri && a as int == -(m as int);
                vstd::arithmetic::div_mod::lemma_fundamental_div_mod_converse(
                    a as int, b as int, -qi - 1, b - ri);
            }
        }
        if rem == 0 {
            -(q as i128)
        } else {
            -(q as i128) - 1
        }
    }
}

/// Floor division on `i64` values through the 128-bit helper.
pub fn div_floor_i64(a: i64, b: i64) -> (r: i64)
    requires
        0 < b,
    ensures
        r == a as int / b as int,
{
    let q: i128 = div_floor_i128(a as i128, b as i128);
    proof {
        if a >= 0 {
            vstd::arithmetic::div_mod::lemma_div_pos_is_pos(a as int, b as int);
            vstd::arithmetic::div_mod::lemma_div_is_ordered_by_denominator(a as int, 1, b as int);
            vstd::arithmetic::div_mod::lemma_div_by_self(b as int);
        } else {
            lemma_div_lower_bound(a as int, b as int);
        }
    }
    q as i64
}

proof fn lemma_div_lower_bound(a: int, b: int)
    requires
        a < 0,
        0 < b,
    ensures
        a <= a / b <= 0,
{
    vstd::arithmetic::div_mod::lemma_fundamental_div_mod(a, b);
    let q = a / b;
    let r = a % b;
    vstd::arithmetic::div_mod::lemma_mod_bound(a, b);
    assert(q < 0 ==> q * b <= q) by (nonlinear_arith)
        requires 1 <= b;
    assert(q >= 0 ==> q * b >= 0) by (nonlinear_arith)
        requires 1 <= b;
    assert(a <= q) by (nonlinear_arith)
        requires a == b * q + r && 0 <= r < b && 1 <= b && a < 0;
}

/// The remainder that pairs with [`div_floor_i64`]: always in `[0, b)`.
pub fn mod_floor_i64(a: i64, b: i64) -> (r: i64)
    requires
        0 < b,
    ensures
        r == a as int % b as int,
        0 <= r < b,
{
    let q = div_floor_i64(a, b);
    proof {
        vstd::arithmetic::div_mod::lemma_fundamental_div_mod(a as int, b as int);
        vstd::arithmetic::div_mod::lemma_mod_bound(a as int, b as int);
    }
    proof {
        assert((q as int) * (b as int) == a as int - a as int % b as int);
    }
    let qb: i128 = (q as i128) * (b as i128);
    (a as i128 - qb) as i64
}


/// Integer square root as a spec-level function, defined by counting up.
pub open spec fn spec_isqrt(n: int) -> int
    decreases n,
{
    if n <= 0 {
        0
    } else {
        let r = spec_isqrt(n - 1);
        if (r + 1) * (r + 1) <= n {
            r + 1
        } else {
            r
        }
    }
}

/// [`spec_isqrt`] satisfies the defining property of the integer square root.
pub proof fn lemma_isqrt_is_isqrt(n: int)
    requires
        0 <= n,
    ensures
        is_isqrt(n, spec_isqrt(n)),
    decreases n,
{
    if n == 0 {
    } else {
        lemma_isqrt_is_isqrt(n - 1);
        let r = spec_isqrt(n - 1);
        assert(r * r <= n - 1 < (r + 1) * (r + 1));
        if (r + 1) * (r + 1) <= n {
            assert((r + 2) * (r + 2) > n) by (nonlinear_arith)
                requires 0 <= r && n - 1 < (r + 1) * (r + 1);
        }
    }
}

/// Two integer square roots of the same value coincide.
pub proof fn lemma_isqrt_unique(n: int, a: int, b: int)
    requires
        is_isqrt(n, a),
        is_isqrt(n, b),
    ensures
        a == b,
{
    assert(a == b) by (nonlinear_arith)
        requires
            0 <= a && a * a <= n < (a + 1) * (a + 1) && 0 <= b && b * b <= n < (b + 1) * (b + 1);
}


/// Absolute value on `int`.
pub open spec fn abs_int(x: int) -> int {
    if x >= 0 {
        x
    } else {
        -x
    }
}

/// A linear interpolation `lo + f * (hi - lo) / d` with `0 <= f <= d` lands
/// between `lo` and `hi`.
pub proof fn lemma_lerp_in_range(f: int, d: int, lo: int, hi: int)
    requires
        0 <= f <= d,
        0 < d,
    ensures
        lo <= hi ==> lo <= lo + f * (hi - lo) / d <= hi,
        lo > hi ==> hi <= lo + f * (hi - lo) / d <= lo,
{
    let delta = hi - lo;
    if delta >= 0 {
        assert(0 <= f * delta <= d * delta) by (nonlinear_arith)
            requires 0 <= f <= d && delta >= 0;
        vstd::arithmetic::div_mod::lemma_div_pos_is_pos(f * delta, d);
        vstd::arithmetic::div_mod::lemma_div_is_ordered(f * delta, d * delta, d);
        vstd::arithmetic::div_mod::lemma_div_multiples_vanish(delta, d);
    } else {
        assert(d * delta <= f * delta <= 0) by (nonlinear_arith)
            requires 0 <= f <= d && delta < 0;
        vstd::arithmetic::div_mod::lemma_div_is_ordered(d * delta, f * delta, d);
        vstd::arithmetic::div_mod::lemma_div_is_ordered(f * delta, 0, d);
        vstd::arithmetic::div_mod::lemma_div_multiples_vanish(delta, d);
        vstd::arithmetic::div_mod::lemma_div_of0(d);
    }
}


/// The magnitude of a quotient is bounded by the magnitude of the dividend
/// over a lower bound on the positive divisor.
pub proof fn lemma_quotient_bound(a: int, b: int, ma: int, mb: int)
    requires
        b >= mb,
        1 <= mb,
        abs_int(a) <= ma,
        0 <= ma,
    ensures
        abs_int(a / b) <= ma / mb + 1,
{
    vstd::arithmetic::div_mod::lemma_fundamental_div_mod(a, b);
    vstd::arithmetic::div_mod::lemma_mod_bound(a, b);
    vstd::arithmetic::div_mod::lemma_fundamental_div_mod(ma, mb);
    vstd::arithmetic::div_mod::lemma_mod_bound(ma, mb);
    vstd::arithmetic::div_mod::lemma_div_pos_is_pos(ma, mb);
    let q = a / b;
    let r = a % b;
    assert(abs_int(q) <= ma / mb + 1) by (nonlinear_arith)
        requires
            a == b * q + r && 0 <= r < b && b >= mb && 1 <= mb && abs_int(a) <= ma && 0 <= ma
                && abs_int(a) == (if a >= 0 { a } else { -a }) && abs_int(q) == (if q >= 0 { q } else { -q })
                && ma == mb * (ma / mb) + ma % mb && 0 <= ma % mb && ma / mb >= 0;
}

} // verus!
