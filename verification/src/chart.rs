//! Load charts: the rated capacity of one boom length, tabulated by radius.
//!
//! A [`LoadChart`] keeps its points sorted ascending by radius; lookups
//! interpolate linearly between the two neighbouring points and clamp to the
//! nearest boundary capacity beyond the tabulated range.  Radii are
//! millimetres, capacities kilograms.

use vstd::prelude::*;
use crate::num::{abs_int, lemma_lerp_in_range};

verus! {

/// Largest radius a chart point may hold.
pub const MAX_RADIUS_MM: i64 = 1_000_000_000;

/// Largest capacity a chart point may hold.
pub const MAX_CAPACITY_KG: i64 = 1_000_000_000;

/// Two radii closer than this count as the same tabulated radius: 0.01 m.
pub const SAME_RADIUS_EPS_MM: i64 = 10;

/// Single point on a load chart.
#[derive(Clone, Copy, Debug, PartialEq, Eq, Structural)]
pub struct CapacityPoint {
    pub radius_mm: i64,
    pub capacity_kg: i64,
}

/// A chart point within the engine's bounds.
pub open spec fn point_ok(p: CapacityPoint) -> bool {
    0 <= p.radius_mm <= MAX_RADIUS_MM && 0 <= p.capacity_kg <= MAX_CAPACITY_KG
}

/// Points sorted ascending by radius.
pub open spec fn sorted_by_radius(s: Seq<CapacityPoint>) -> bool {
    forall|i: int, j: int| 0 <= i < j < s.len() ==> s[i].radius_mm <= s[j].radius_mm
}

/// Load chart for a specific boom length.
#[derive(Clone, Debug)]
pub struct LoadChart {
    pub boom_length_mm: i64,
    pub points: Vec<CapacityPoint>,
    /// Optional configuration notes.
    pub notes: Option<String>,
}

/// How many points have radius at or below `r`.
pub open spec fn count_le(s: Seq<CapacityPoint>, r: int) -> int
    decreases s.len(),
{
    if s.len() == 0 {
        0
    } else {
        (if s[0].radius_mm <= r {
            1int
        } else {
            0int
        }) + count_le(s.drop_first(), r)
    }
}

/// How many points have radius strictly below `r`.
pub open spec fn count_lt(s: Seq<CapacityPoint>, r: int) -> int
    decreases s.len(),
{
    if s.len() == 0 {
        0
    } else {
        (if s[0].radius_mm < r {
            1int
        } else {
            0int
        }) + count_lt(s.drop_first(), r)
    }
}

/// In a sorted sequence, the points with radius at or below `r` are exactly
/// the prefix up to the first larger radius.
pub proof fn lemma_count_le_prefix(s: Seq<CapacityPoint>, r: int, i: int)
    requires
        sorted_by_radius(s),
        0 <= i <= s.len(),
        forall|j: int| 0 <= j < i ==> s[j].radius_mm <= r,
        i < s.len() ==> s[i].radius_mm > r,
    ensures
        count_le(s, r) == i,
    decreases s.len(),
{
    if s.len() == 0 {
    } else {
        let t = s.drop_first();
        assert(sorted_by_radius(t)) by {
            assert(forall|a: int, b: int| 0 <= a < b < t.len() ==> t[a] == s[a + 1]
                && t[b] == s[b + 1]);
        };
        if s[0].radius_mm <= r {
            assert(i >= 1);
            assert(forall|j: int| 0 <= j < i - 1 ==> t[j] == s[j + 1] && s[j + 1].radius_mm <= r);
            assert(i - 1 < t.len() ==> t[i - 1] == s[i] && s[i].radius_mm > r);
            lemma_count_le_prefix(t, r, i - 1);
        } else {
            assert(i == 0);
            assert(0 < t.len() ==> t[0] == s[1] && s[1].radius_mm >= s[0].radius_mm);
            lemma_count_le_prefix(t, r, 0);
        }
    }
}

/// In a sorted sequence, the points with radius strictly below `r` are
/// exactly the prefix up to the first radius at or above `r`.
pub proof fn lemma_count_lt_prefix(s: Seq<CapacityPoint>, r: int, i: int)
    requires
        sorted_by_radius(s),
        0 <= i <= s.len(),
        forall|j: int| 0 <= j < i ==> s[j].radius_mm < r,
        i < s.len() ==> s[i].radius_mm >= r,
    ensures
        count_lt(s, r) == i,
    decreases s.len(),
{
    if s.len() == 0 {
    } else {
        let t = s.drop_first();
        assert(sorted_by_radius(t)) by {
            assert(forall|a: int, b: int| 0 <= a < b < t.len() ==> t[a] == s[a + 1]
                && t[b] == s[b + 1]);
        };
        if s[0].radius_mm < r {
            assert(i >= 1);
            assert(forall|j: int| 0 <= j < i - 1 ==> t[j] == s[j + 1] && s[j + 1].radius_mm < r);
            assert(i - 1 < t.len() ==> t[i - 1] == s[i] && s[i].radius_mm >= r);
            lemma_count_lt_prefix(t, r, i - 1);
        } else {
            assert(i == 0);
            assert(0 < t.len() ==> t[0] == s[1] && s[1].radius_mm >= s[0].radius_mm);
            lemma_count_lt_prefix(t, r, 0);
        }
    }
}

/// The capacity a sorted chart reports at radius `r`.
///
/// `l` is the first point carrying the greatest tabulated radius at or below
/// `r`, `u` the first point carrying the smallest tabulated radius at or
/// above `r`.  When both exist and their radii are within
/// [`SAME_RADIUS_EPS_MM`] the lookup is an exact match and returns `l`'s
/// capacity; otherwise it interpolates between them.  With only one
/// neighbour the lookup clamps to that boundary capacity, and an empty chart
/// reports nothing.
pub open spec fn spec_capacity_at(s: Seq<CapacityPoint>, r: int) -> Option<int> {
    if s.len() == 0 {
        None
    } else {
        let k = count_le(s, r);
        let m = count_lt(s, r);
        if k > 0 && m < s.len() {
            let l = s[count_lt(s, s[k - 1].radius_mm as int)];
            let u = s[m];
            if abs_int(l.radius_mm - u.radius_mm) < SAME_RADIUS_EPS_MM {
                Some(l.capacity_kg as int)
            } else {
                Some(
                    l.capacity_kg + (r - l.radius_mm) * (u.capacity_kg - l.capacity_kg) / (
                    u.radius_mm - l.radius_mm),
                )
            }
        } else if k > 0 {
            let l = s[count_lt(s, s[k - 1].radius_mm as int)];
            Some(l.capacity_kg as int)
        } else {
            Some(s[m].capacity_kg as int)
        }
    }
}

/// A well-formed chart: points in bounds and sorted ascending by radius.
pub open spec fn chart_wf(c: LoadChart) -> bool {
    &&& 0 <= c.boom_length_mm <= MAX_RADIUS_MM
    &&& sorted_by_radius(c.points@)
    &&& forall|i: int| 0 <= i < c.points@.len() ==> point_ok(#[trigger] c.points@[i])
}

impl LoadChart {
    /// An empty chart for one boom length.
    pub fn new(boom_length_mm: i64) -> (c: LoadChart)
        requires
            0 <= boom_length_mm <= MAX_RADIUS_MM,
        ensures
            chart_wf(c),
            c.boom_length_mm == boom_length_mm,
            c.points@.len() == 0,
            c.notes is None,
    {
        LoadChart { boom_length_mm, points: Vec::new(), notes: None }
    }

    /// Add a capacity point, keeping the points sorted by radius; among
    /// equal radii the new point goes last.
    pub fn add_point(&mut self, radius_mm: i64, capacity_kg: i64)
        requires
            chart_wf(*old(self)),
            0 <= radius_mm <= MAX_RADIUS_MM,
            0 <= capacity_kg <= MAX_CAPACITY_KG,
        ensures
            chart_wf(*final(self)),
            final(self).boom_length_mm == old(self).boom_length_mm,
            final(self).notes == old(self).notes,
            final(self).points@ == old(self).points@.insert(
                count_le(old(self).points@, radius_mm as int),
                (CapacityPoint { radius_mm, capacity_kg }),
            ),
            (forall|i: int| 0 <= i < old(self).points@.len()
                ==> (#[trigger] old(self).points@[i]).radius_mm <= radius_mm) ==> final(
                self).points@ == old(self).points@.push(
                (CapacityPoint { radius_mm, capacity_kg }),
            ),
    {
        let p = CapacityPoint { radius_mm, capacity_kg };
        let n = self.points.len();
        let mut idx: usize = 0;
        loop
            invariant
                0 <= idx <= n,
                n == self.points@.len(),
                chart_wf(*self),
                self == old(self),
                forall|j: int| 0 <= j < idx ==> self.points@[j].radius_mm <= radius_mm,
            ensures
                0 <= idx <= n,
                forall|j: int| 0 <= j < idx ==> self.points@[j].radius_mm <= radius_mm,
                idx == n || self.points@[idx as int].radius_mm > radius_mm,
            decreases n - idx,
        {
            if idx == n {
                break;
            }
            if self.points[idx].radius_mm > radius_mm {
                break;
            }
            idx = idx + 1;
        }
        proof {
            lemma_count_le_prefix(self.points@, radius_mm as int, idx as int);
        }
        self.points.insert(idx, p);
        proof {
            let s = old(self).points@;
            let t = self.points@;
            let ii = count_le(s, radius_mm as int);
            assert(t == s.insert(ii, p));
            assert forall|a: int, b: int| 0 <= a < b < t.len() implies t[a].radius_mm
                <= t[b].radius_mm by {
                if b < ii {
                    assert(t[a] == s[a] && t[b] == s[b]);
                } else if a > ii {
                    assert(t[a] == s[a - 1] && t[b] == s[b - 1]);
                } else if a == ii && b > ii {
                    assert(t[a] == p && t[b] == s[b - 1]);
                    assert(s[b - 1].radius_mm > radius_mm);
                } else if b == ii {
                    assert(t[a] == s[a] && t[b] == p);
                } else {
                    assert(a < ii && b > ii);
                    assert(t[a] == s[a] && t[b] == s[b - 1]);
                    assert(s[a].radius_mm <= radius_mm);
                    assert(s[b - 1].radius_mm > radius_mm);
                }
            };
            assert(forall|i: int| 0 <= i < t.len() ==> point_ok(#[trigger] t[i]));
            if forall|i: int| 0 <= i < s.len() ==> (#[trigger] s[i]).radius_mm <= radius_mm {
                lemma_count_le_prefix(s, radius_mm as int, s.len() as int);
                assert(t =~= s.push(p));
            }
        }
    }

    /// The capacity at `radius_mm`, as [`spec_capacity_at`] defines it:
    /// linear interpolation between the neighbouring points, clamped to the
    /// boundary capacities beyond the tabulated range, `None` on an empty
    /// chart.
    ///
    /// Beyond-range queries never extrapolate: past the last point the last
    /// capacity is returned, before the first point the first.
    pub fn get_capacity_at_radius(&self, radius_mm: i64) -> (r: Option<i64>)
        requires
            chart_wf(*self),
            -MAX_RADIUS_MM <= radius_mm <= MAX_RADIUS_MM,
        ensures
            match r {
                Some(c) => {
                    &&& spec_capacity_at(self.points@, radius_mm as int) == Some(c as int)
                    &&& 0 <= c <= MAX_CAPACITY_KG
                },
                None => spec_capacity_at(self.points@, radius_mm as int) is None,
            },
            r is Some <==> self.points@.len() > 0,
    {
        let ghost s = self.points@;
        let n = self.points.len();
        if n == 0 {
            return None;
        }
        // k: one past the last point with radius <= r
        let mut k: usize = 0;
        loop
            invariant
                0 <= k <= n,
                n == s.len(),
                s == self.points@,
                chart_wf(*self),
                forall|j: int| 0 <= j < k ==> s[j].radius_mm <= radius_mm,
            ensures
                0 <= k <= n,
                forall|j: int| 0 <= j < k ==> s[j].radius_mm <= radius_mm,
                k == n || s[k as int].radius_mm > radius_mm,
            decreases n - k,
        {
            if k == n {
                break;
            }
            if self.points[k].radius_mm > radius_mm {
                break;
            }
            k = k + 1;
        }
        proof {
            lemma_count_le_prefix(s, radius_mm as int, k as int);
        }
        // m: the first point with radius >= r
        let mut m: usize = 0;
        loop
            invariant
                0 <= m <= n,
                n == s.len(),
                s == self.points@,
                chart_wf(*self),
                forall|j: int| 0 <= j < m ==> s[j].radius_mm < radius_mm,
            ensures
                0 <= m <= n,
                forall|j: int| 0 <= j < m ==> s[j].radius_mm < radius_mm,
                m == n || s[m as int].radius_mm >= radius_mm,
            decreases n - m,
        {
            if m == n {
                break;
            }
            if self.points[m].radius_mm >= radius_mm {
                break;
            }
            m = m + 1;
        }
        proof {
            lemma_count_lt_prefix(s, radius_mm as int, m as int);
        }
        if k > 0 {
            // li: the first point carrying the same radius as the last
            // point at or below r
            let lr: i64 = self.points[k - 1].radius_mm;
            let mut li: usize = 0;
            loop
                invariant
                    0 <= li <= n,
                    n == s.len(),
                    s == self.points@,
                    chart_wf(*self),
                    forall|j: int| 0 <= j < li ==> s[j].radius_mm < lr,
                ensures
                    0 <= li <= n,
                    forall|j: int| 0 <= j < li ==> s[j].radius_mm < lr,
                    li == n || s[li as int].radius_mm >= lr,
                decreases n - li,
            {
                if li == n {
                    break;
                }
                if self.points[li].radius_mm >= lr {
                    break;
                }
                li = li + 1;
            }
            proof {
                lemma_count_lt_prefix(s, lr as int, li as int);
                assert(li < n) by {
                    assert(s[k - 1].radius_mm == lr);
                    if li == n {
                        assert(s[k - 1].radius_mm < lr);
                    }
                };
                assert(s[li as int].radius_mm == lr) by {
                    assert(s[li as int].radius_mm >= lr);
                    if li as int <= k - 1 {
                        assert(s[li as int].radius_mm <= s[k - 1].radius_mm);
                    } else {
                        assert(s[k - 1].radius_mm >= s[li as int].radius_mm);
                    }
                };
            }
            let l = self.points[li];
            if m < n {
                let u = self.points[m];
                let diff: i64 = if l.radius_mm >= u.radius_mm {
                    l.radius_mm - u.radius_mm
                } else {
                    u.radius_mm - l.radius_mm
                };
                if diff < SAME_RADIUS_EPS_MM {
                    Some(l.capacity_kg)
                } else {
                    proof {
                        assert(l.radius_mm <= radius_mm);
                        assert(u.radius_mm >= radius_mm);
                        lemma_lerp_in_range(
                            radius_mm - l.radius_mm,
                            u.radius_mm - l.radius_mm,
                            l.capacity_kg as int,
                            u.capacity_kg as int,
                        );
                    }
                    let num: i64 = radius_mm - l.radius_mm;
                    let den: i64 = u.radius_mm - l.radius_mm;
                    proof {
                        assert(-2_000_000_000_000_000_000
                            <= (num as int) * ((u.capacity_kg - l.capacity_kg) as int)
                            <= 2_000_000_000_000_000_000) by (nonlinear_arith)
                            requires
                                0 <= num <= 2_000_000_000
                                    && -1_000_000_000 <= u.capacity_kg - l.capacity_kg
                                    <= 1_000_000_000;
                    }
                    let t: i64 = crate::num::div_floor_i128(
                        (num as i128) * ((u.capacity_kg - l.capacity_kg) as i128),
                        den as i128,
                    ) as i64;
                    Some(l.capacity_kg + t)
                }
            } else {
                Some(l.capacity_kg)
            }
        } else {
            // k == 0: every point lies at a radius above r, so m == 0 < n
            Some(self.points[m].capacity_kg)
        }
    }
}

/// The greatest tabulated radius of a prefix of the points; zero with no
/// points.
pub open spec fn spec_max_radius(s: Seq<CapacityPoint>, n: int) -> int
    decreases n,
{
    if n <= 0 {
        0
    } else if s[n - 1].radius_mm > spec_max_radius(s, n - 1) {
        s[n - 1].radius_mm as int
    } else {
        spec_max_radius(s, n - 1)
    }
}

/// The smallest tabulated radius of a prefix; the largest representable
/// length with no points.
pub open spec fn spec_min_radius(s: Seq<CapacityPoint>, n: int) -> int
    decreases n,
{
    if n <= 0 {
        0x7fff_ffff_ffff_ffff
    } else if s[n - 1].radius_mm < spec_min_radius(s, n - 1) {
        s[n - 1].radius_mm as int
    } else {
        spec_min_radius(s, n - 1)
    }
}

/// The greatest tabulated capacity of a prefix; zero with no points.
pub open spec fn spec_max_capacity(s: Seq<CapacityPoint>, n: int) -> int
    decreases n,
{
    if n <= 0 {
        0
    } else if s[n - 1].capacity_kg > spec_max_capacity(s, n - 1) {
        s[n - 1].capacity_kg as int
    } else {
        spec_max_capacity(s, n - 1)
    }
}

impl LoadChart {
    /// The greatest radius on this chart; zero for an empty chart.
    pub fn max_radius(&self) -> (r: i64)
        ensures
            r == spec_max_radius(self.points@, self.points@.len() as int),
    {
        let n = self.points.len();
        let mut best: i64 = 0;
        let mut i: usize = 0;
        while i < n
            invariant
                0 <= i <= n,
                n == self.points@.len(),
                best == spec_max_radius(self.points@, i as int),
            decreases n - i,
        {
            let v = self.points[i].radius_mm;
            if v > best {
                best = v;
            }
            i = i + 1;
        }
        best
    }

    /// The smallest radius on this chart; the largest representable length
    /// for an empty chart.
    pub fn min_radius(&self) -> (r: i64)
        ensures
            r == spec_min_radius(self.points@, self.points@.len() as int),
    {
        let n = self.points.len();
        let mut best: i64 = i64::MAX;
        let mut i: usize = 0;
        while i < n
            invariant
                0 <= i <= n,
                n == self.points@.len(),
                best == spec_min_radius(self.points@, i as int),
            decreases n - i,
        {
            let v = self.points[i].radius_mm;
            if v < best {
                best = v;
            }
            i = i + 1;
        }
        best
    }

    /// The greatest capacity on this chart; zero for an empty chart.
    pub fn max_capacity(&self) -> (r: i64)
        ensures
            r == spec_max_capacity(self.points@, self.points@.len() as int),
    {
        let n = self.points.len();
        let mut best: i64 = 0;
        let mut i: usize = 0;
        while i < n
            invariant
                0 <= i <= n,
                n == self.points@.len(),
                best == spec_max_capacity(self.points@, i as int),
            decreases n - i,
        {
            let v = self.points[i].capacity_kg;
            if v > best {
                best = v;
            }
            i = i + 1;
        }
        best
    }
}

} // verus!
