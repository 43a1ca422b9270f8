//! The capacity chart system of one crane: load charts keyed by boom length
//! rounded to 0.1 m, and the de-rating factors for non-ideal operating
//! conditions.
//!
//! Two lookup paths exist and stay distinct on purpose: [`CapacityChart::get_capacity`]
//! picks the single chart whose boom length is nearest and applies every
//! de-rating factor, while [`CapacityChart::get_capacity_interpolated`]
//! interpolates between the two neighbouring boom lengths and applies no
//! de-rating at all.
//!
//! De-rating factors are parts per thousand: 850 stands for 0.85.

use vstd::prelude::*;
use crate::chart::{chart_wf, spec_capacity_at, LoadChart, MAX_CAPACITY_KG, MAX_RADIUS_MM};
use crate::num::{abs_int, lemma_lerp_in_range, mod_floor_i64};

verus! {

/// The per-mille scale: this value stands for a factor of 1.0.
pub const FACTOR_ONE_PM: i64 = 1000;

/// The chart key of a boom length: tenths of a metre, rounded to nearest
/// with halves up.
pub open spec fn key_dm(boom_length_mm: int) -> int {
    (boom_length_mm + 50) / 100
}

/// Index of the first chart whose key matches `key`.
pub open spec fn find_key_idx(s: Seq<LoadChart>, key: int) -> Option<int>
    decreases s.len(),
{
    if s.len() == 0 {
        None
    } else if key_dm(s[0].boom_length_mm as int) == key {
        Some(0)
    } else {
        match find_key_idx(s.drop_first(), key) {
            None => None,
            Some(i) => Some(i + 1),
        }
    }
}

/// Index of the first chart whose boom length is nearest to `boom`; earlier
/// charts win ties.
pub open spec fn closest_idx(s: Seq<LoadChart>, boom: int) -> Option<int>
    decreases s.len(),
{
    if s.len() == 0 {
        None
    } else {
        match closest_idx(s.drop_first(), boom) {
            None => Some(0),
            Some(j) => {
                if abs_int(s[0].boom_length_mm - boom) <= abs_int(s[j + 1].boom_length_mm - boom) {
                    Some(0)
                } else {
                    Some(j + 1)
                }
            },
        }
    }
}

/// The chart [`CapacityChart::get_capacity`] reads: an exact key match if
/// one exists, else the nearest boom length.
pub open spec fn spec_chart_choice(s: Seq<LoadChart>, boom: int) -> Option<int> {
    match find_key_idx(s, key_dm(boom)) {
        Some(i) => Some(i),
        None => closest_idx(s, boom),
    }
}

/// Complete capacity chart system for a crane.
#[derive(Clone, Debug)]
pub struct CapacityChart {
    /// Load charts, at most one per 0.1 m boom-length key.
    pub charts: Vec<LoadChart>,
    /// De-rating over the side quadrants.
    pub over_side_factor_pm: i64,
    /// De-rating over the rear quadrant.
    pub over_rear_factor_pm: i64,
    /// De-rating for moving loads.
    pub dynamic_factor_pm: i64,
    /// De-rating when outriggers are not fully extended.
    pub outrigger_intermediate_factor_pm: i64,
    /// De-rating when travelling on tires.
    pub on_tires_factor_pm: i64,
}

/// A well-formed chart system: every chart well-formed, keys distinct, all
/// factors between 0 and 1.
pub open spec fn capacity_chart_wf(c: CapacityChart) -> bool {
    &&& forall|i: int| 0 <= i < c.charts@.len() ==> chart_wf(#[trigger] c.charts@[i])
    &&& forall|i: int, j: int| 0 <= i < j < c.charts@.len() ==> key_dm(
        c.charts@[i].boom_length_mm as int) != key_dm(c.charts@[j].boom_length_mm as int)
    &&& 0 <= c.over_side_factor_pm <= FACTOR_ONE_PM
    &&& 0 <= c.over_rear_factor_pm <= FACTOR_ONE_PM
    &&& 0 <= c.dynamic_factor_pm <= FACTOR_ONE_PM
    &&& 0 <= c.outrigger_intermediate_factor_pm <= FACTOR_ONE_PM
    &&& 0 <= c.on_tires_factor_pm <= FACTOR_ONE_PM
}

/// The swing factor of a bearing, over the given side and rear factors: the
/// front quadrant (bearings outside [45, 315) degrees from forward) is
/// unreduced, the side bands [45, 135) and [225, 315) take the over-side
/// factor, the rear band [135, 225) the over-rear factor.
pub open spec fn spec_swing_factor_pm(side_pm: int, rear_pm: int, swing_mdeg: int) -> int {
    let a = swing_mdeg % 360000;
    if 45000 <= a < 135000 {
        side_pm
    } else if 135000 <= a < 225000 {
        rear_pm
    } else if 225000 <= a < 315000 {
        side_pm
    } else {
        1000
    }
}

/// One de-rating step: scale a capacity by a per-mille factor.
pub open spec fn spec_apply_factor(cap: int, factor_pm: int) -> int {
    cap * factor_pm / 1000
}

/// The full de-rating chain of [`CapacityChart::get_capacity`]: swing
/// factor, then the flat intermediate-outrigger factor when extension is
/// partial, then the on-tires factor.
pub open spec fn spec_derate(
    c: CapacityChart,
    base: int,
    swing_mdeg: int,
    outrigger_extension_pm: int,
    on_tires: bool,
) -> int {
    let after_swing = spec_apply_factor(
        base,
        spec_swing_factor_pm(c.over_side_factor_pm as int, c.over_rear_factor_pm as int,
            swing_mdeg),
    );
    let after_outrigger = if outrigger_extension_pm < 1000 {
        spec_apply_factor(after_swing, c.outrigger_intermediate_factor_pm as int)
    } else {
        after_swing
    };
    if on_tires {
        spec_apply_factor(after_outrigger, c.on_tires_factor_pm as int)
    } else {
        after_outrigger
    }
}

impl CapacityChart {
    /// An empty chart system with the customary default factors.
    pub fn new() -> (c: CapacityChart)
        ensures
            capacity_chart_wf(c),
            c.charts@.len() == 0,
            c.over_side_factor_pm == 850,
            c.over_rear_factor_pm == 750,
            c.dynamic_factor_pm == 850,
            c.outrigger_intermediate_factor_pm == 850,
            c.on_tires_factor_pm == 400,
    {
        CapacityChart {
            charts: Vec::new(),
            over_side_factor_pm: 850,
            over_rear_factor_pm: 750,
            dynamic_factor_pm: 850,
            outrigger_intermediate_factor_pm: 850,
            on_tires_factor_pm: 400,
        }
    }

    /// Add a load chart for its boom length, replacing any chart already
    /// stored under the same 0.1 m key.
    pub fn add_chart(&mut self, chart: LoadChart)
        requires
            capacity_chart_wf(*old(self)),
            chart_wf(chart),
        ensures
            capacity_chart_wf(*final(self)),
            final(self).over_side_factor_pm == old(self).over_side_factor_pm,
            final(self).over_rear_factor_pm == old(self).over_rear_factor_pm,
            final(self).dynamic_factor_pm == old(self).dynamic_factor_pm,
            final(self).outrigger_intermediate_factor_pm == old(
                self).outrigger_intermediate_factor_pm,
            final(self).on_tires_factor_pm == old(self).on_tires_factor_pm,
            match find_key_idx(old(self).charts@, key_dm(chart.boom_length_mm as int)) {
                Some(i) => final(self).charts@ == old(self).charts@.update(i, chart),
                None => final(self).charts@ == old(self).charts@.push(chart),
            },
    {
        let key = chart_key(chart.boom_length_mm);
        let n = self.charts.len();
        let mut i: usize = 0;
        loop
            invariant
                0 <= i <= n,
                n == self.charts@.len(),
                self == old(self),
                capacity_chart_wf(*self),
                key == key_dm(chart.boom_length_mm as int),
                forall|j: int| 0 <= j < i ==> key_dm(
                    #[trigger] self.charts@[j].boom_length_mm as int) != key,
            ensures
                0 <= i <= n,
                self == old(self),
                forall|j: int| 0 <= j < i ==> key_dm(
                    #[trigger] self.charts@[j].boom_length_mm as int) != key,
                i == n || key_dm(self.charts@[i as int].boom_length_mm as int) == key,
            decreases n - i,
        {
            if i == n {
                break;
            }
            proof {
                assert(chart_wf(self.charts@[i as int]));
            }
            if chart_key(self.charts[i].boom_length_mm) == key {
                break;
            }
            i = i + 1;
        }
        proof {
            lemma_find_key_scan(self.charts@, key as int, i as int);
        }
        if i < n {
            self.charts[i] = chart;
        } else {
            self.charts.push(chart);
        }
        proof {
            let s = old(self).charts@;
            let t = self.charts@;
            assert forall|a: int, b: int| 0 <= a < b < t.len() implies key_dm(
                t[a].boom_length_mm as int) != key_dm(t[b].boom_length_mm as int) by {
                if i < n {
                    assert(t == s.update(i as int, chart));
                } else {
                    assert(t == s.push(chart));
                }
            };
        }
    }
}

/// The key of a boom length in exec code.
pub fn chart_key(boom_length_mm: i64) -> (k: i64)
    requires
        0 <= boom_length_mm <= MAX_RADIUS_MM,
    ensures
        k == key_dm(boom_length_mm as int),
        0 <= k,
{
    ((boom_length_mm as u64 + 50) / 100) as i64
}

/// A prefix scan that stopped at `i` identifies the first key match.
pub proof fn lemma_find_key_scan(s: Seq<LoadChart>, key: int, i: int)
    requires
        0 <= i <= s.len(),
        forall|j: int| 0 <= j < i ==> key_dm(#[trigger] s[j].boom_length_mm as int) != key,
        i < s.len() ==> key_dm(s[i].boom_length_mm as int) == key,
    ensures
        i < s.len() ==> find_key_idx(s, key) == Some(i),
        i == s.len() ==> find_key_idx(s, key) is None,
    decreases s.len(),
{
    if s.len() == 0 {
    } else {
        let t = s.drop_first();
        assert(forall|j: int| 0 <= j < t.len() ==> t[j] == s[j + 1]);
        if key_dm(s[0].boom_length_mm as int) == key {
            assert(i == 0);
        } else {
            lemma_find_key_scan(t, key, i - 1);
        }
    }
}

/// A scan that kept the first strict minimizer identifies [`closest_idx`].
proof fn lemma_closest_scan(s: Seq<LoadChart>, boom: int, i: int)
    requires
        0 <= i < s.len(),
        forall|j: int| 0 <= j < s.len() ==> abs_int(#[trigger] s[j].boom_length_mm - boom)
            >= abs_int(s[i].boom_length_mm - boom),
        forall|j: int| 0 <= j < i ==> abs_int(#[trigger] s[j].boom_length_mm - boom) > abs_int(
            s[i].boom_length_mm - boom),
    ensures
        closest_idx(s, boom) == Some(i),
    decreases s.len(),
{
    let t = s.drop_first();
    assert(forall|j: int| 0 <= j < t.len() ==> t[j] == s[j + 1]);
    if i == 0 {
        if t.len() == 0 {
        } else {
            lemma_closest_some(t, boom);
            let j = closest_idx(t, boom)->0;
            assert(abs_int(s[0].boom_length_mm - boom) <= abs_int(s[j + 1].boom_length_mm - boom));
        }
    } else {
        lemma_closest_scan(t, boom, i - 1);
        assert(abs_int(s[0].boom_length_mm - boom) > abs_int(s[i].boom_length_mm - boom));
    }
}

/// A nonempty sequence always has a closest chart.
proof fn lemma_closest_some(s: Seq<LoadChart>, boom: int)
    requires
        s.len() > 0,
    ensures
        closest_idx(s, boom) is Some,
        0 <= closest_idx(s, boom)->0 < s.len(),
    decreases s.len(),
{
    let t = s.drop_first();
    if t.len() == 0 {
        assert(closest_idx(t, boom) is None);
    } else {
        lemma_closest_some(t, boom);
    }
}


/// First index carrying the greatest boom length at or below `t`.
pub open spec fn lower_chart_idx(s: Seq<LoadChart>, t: int) -> Option<int>
    decreases s.len(),
{
    if s.len() == 0 {
        None
    } else {
        let rest = lower_chart_idx(s.drop_first(), t);
        if s[0].boom_length_mm <= t {
            match rest {
                None => Some(0),
                Some(j) => {
                    if s[0].boom_length_mm >= s[j + 1].boom_length_mm {
                        Some(0)
                    } else {
                        Some(j + 1)
                    }
                },
            }
        } else {
            match rest {
                None => None,
                Some(j) => Some(j + 1),
            }
        }
    }
}

/// First index carrying the smallest boom length at or above `t`.
pub open spec fn upper_chart_idx(s: Seq<LoadChart>, t: int) -> Option<int>
    decreases s.len(),
{
    if s.len() == 0 {
        None
    } else {
        let rest = upper_chart_idx(s.drop_first(), t);
        if s[0].boom_length_mm >= t {
            match rest {
                None => Some(0),
                Some(j) => {
                    if s[0].boom_length_mm <= s[j + 1].boom_length_mm {
                        Some(0)
                    } else {
                        Some(j + 1)
                    }
                },
            }
        } else {
            match rest {
                None => None,
                Some(j) => Some(j + 1),
            }
        }
    }
}

/// An index that is eligible, carries the maximal eligible boom length and
/// is first among equals identifies [`lower_chart_idx`].
proof fn lemma_lower_scan(s: Seq<LoadChart>, t: int, i: int)
    requires
        0 <= i < s.len(),
        s[i].boom_length_mm <= t,
        forall|j: int| 0 <= j < s.len() && #[trigger] s[j].boom_length_mm <= t
            ==> s[j].boom_length_mm <= s[i].boom_length_mm,
        forall|j: int| 0 <= j < i && #[trigger] s[j].boom_length_mm <= t
            ==> s[j].boom_length_mm < s[i].boom_length_mm,
    ensures
        lower_chart_idx(s, t) == Some(i),
    decreases s.len(),
{
    let rest = s.drop_first();
    assert(forall|j: int| 0 <= j < rest.len() ==> rest[j] == s[j + 1]);
    if i == 0 {
        if s[0].boom_length_mm <= t {
            match lower_chart_idx(rest, t) {
                None => {},
                Some(j) => {
                    lemma_lower_in_range(rest, t);
                    assert(rest[j] == s[j + 1]);
                    assert(rest[j].boom_length_mm <= t);
                    assert(s[0].boom_length_mm >= s[j + 1].boom_length_mm);
                },
            }
        }
    } else {
        lemma_lower_scan(rest, t, i - 1);
        if s[0].boom_length_mm <= t {
            assert(s[0].boom_length_mm < s[i].boom_length_mm);
        }
    }
}

/// A found lower index is in range and eligible.
proof fn lemma_lower_in_range(s: Seq<LoadChart>, t: int)
    ensures
        match lower_chart_idx(s, t) {
            None => forall|j: int| 0 <= j < s.len() ==> #[trigger] s[j].boom_length_mm > t,
            Some(i) => 0 <= i < s.len() && s[i].boom_length_mm <= t,
        },
    decreases s.len(),
{
    if s.len() > 0 {
        let rest = s.drop_first();
        lemma_lower_in_range(rest, t);
        assert(forall|j: int| 0 <= j < rest.len() ==> rest[j] == s[j + 1]);
        if lower_chart_idx(rest, t) is None {
            assert forall|j: int| 1 <= j < s.len() implies #[trigger] s[j].boom_length_mm
                > t by {
                assert(rest[j - 1] == s[j]);
                assert(rest[j - 1].boom_length_mm > t);
            };
        }
    }
}

/// An index that is eligible, carries the minimal eligible boom length and
/// is first among equals identifies [`upper_chart_idx`].
proof fn lemma_upper_scan(s: Seq<LoadChart>, t: int, i: int)
    requires
        0 <= i < s.len(),
        s[i].boom_length_mm >= t,
        forall|j: int| 0 <= j < s.len() && #[trigger] s[j].boom_length_mm >= t
            ==> s[j].boom_length_mm >= s[i].boom_length_mm,
        forall|j: int| 0 <= j < i && #[trigger] s[j].boom_length_mm >= t
            ==> s[j].boom_length_mm > s[i].boom_length_mm,
    ensures
        upper_chart_idx(s, t) == Some(i),
    decreases s.len(),
{
    let rest = s.drop_first();
    assert(forall|j: int| 0 <= j < rest.len() ==> rest[j] == s[j + 1]);
    if i == 0 {
        if s[0].boom_length_mm >= t {
            match upper_chart_idx(rest, t) {
                None => {},
                Some(j) => {
                    lemma_upper_in_range(rest, t);
                    assert(rest[j] == s[j + 1]);
                    assert(rest[j].boom_length_mm >= t);
                    assert(s[0].boom_length_mm <= s[j + 1].boom_length_mm);
                },
            }
        }
    } else {
        lemma_upper_scan(rest, t, i - 1);
        if s[0].boom_length_mm >= t {
            assert(s[0].boom_length_mm > s[i].boom_length_mm);
        }
    }
}

/// A found upper index is in range and eligible.
proof fn lemma_upper_in_range(s: Seq<LoadChart>, t: int)
    ensures
        match upper_chart_idx(s, t) {
            None => forall|j: int| 0 <= j < s.len() ==> #[trigger] s[j].boom_length_mm < t,
            Some(i) => 0 <= i < s.len() && s[i].boom_length_mm >= t,
        },
    decreases s.len(),
{
    if s.len() > 0 {
        let rest = s.drop_first();
        lemma_upper_in_range(rest, t);
        assert(forall|j: int| 0 <= j < rest.len() ==> rest[j] == s[j + 1]);
        if upper_chart_idx(rest, t) is None {
            assert forall|j: int| 1 <= j < s.len() implies (#[trigger] s[j].boom_length_mm)
                < t by {
                assert(rest[j - 1] == s[j]);
                assert(rest[j - 1].boom_length_mm < t);
            };
        }
    }
}


/// Scaling a bounded capacity by a per-mille factor keeps it in range.
proof fn lemma_apply_factor_bounds(cap: int, f: int)
    requires
        0 <= cap <= MAX_CAPACITY_KG,
        0 <= f <= 1000,
    ensures
        0 <= spec_apply_factor(cap, f) <= cap,
{
    assert(0 <= cap * f <= cap * 1000) by (nonlinear_arith)
        requires 0 <= cap && 0 <= f <= 1000;
    vstd::arithmetic::div_mod::lemma_div_pos_is_pos(cap * f, 1000);
    vstd::arithmetic::div_mod::lemma_div_is_ordered(cap * f, cap * 1000, 1000);
    vstd::arithmetic::div_mod::lemma_div_multiples_vanish(cap, 1000);
}

/// Scale a capacity by a per-mille factor, rounding down.
fn apply_factor(cap: i64, factor_pm: i64) -> (r: i64)
    requires
        0 <= cap <= MAX_CAPACITY_KG,
        0 <= factor_pm <= 1000,
    ensures
        r == spec_apply_factor(cap as int, factor_pm as int),
        0 <= r <= cap,
{
    proof {
        lemma_apply_factor_bounds(cap as int, factor_pm as int);
    }
    ((cap as u64 * factor_pm as u64) / 1000) as i64
}

impl CapacityChart {
    /// The swing de-rating factor at a bearing, in parts per thousand; the
    /// result equals [`spec_swing_factor_pm`] over this chart's side and
    /// rear factors.
    pub fn get_swing_factor_pm(&self, swing_angle_mdeg: i64) -> (r: i64)
        requires
            capacity_chart_wf(*self),
        ensures
            r == spec_swing_factor_pm(self.over_side_factor_pm as int,
                self.over_rear_factor_pm as int, swing_angle_mdeg as int),
            0 <= r <= 1000,
    {
        let a = mod_floor_i64(swing_angle_mdeg, 360000);
        if 45000 <= a && a < 135000 {
            self.over_side_factor_pm
        } else if 135000 <= a && a < 225000 {
            self.over_rear_factor_pm
        } else if 225000 <= a && a < 315000 {
            self.over_side_factor_pm
        } else {
            1000
        }
    }

    /// The index of the chart that [`CapacityChart::get_capacity`] reads:
    /// the first exact 0.1 m key match if one exists, else the first chart
    /// with minimal boom-length difference.  `None` exactly when no chart is
    /// stored.
    pub fn find_chart_index(&self, boom_length_mm: i64) -> (r: Option<usize>)
        requires
            capacity_chart_wf(*self),
            0 <= boom_length_mm <= MAX_RADIUS_MM,
        ensures
            match r {
                Some(i) => spec_chart_choice(self.charts@, boom_length_mm as int) == Some(i as int)
                    && i < self.charts@.len(),
                None => self.charts@.len() == 0,
            },
    {
        let ghost s = self.charts@;
        let key = chart_key(boom_length_mm);
        let n = self.charts.len();
        if n == 0 {
            return None;
        }
        // exact key match first
        let mut i: usize = 0;
        loop
            invariant
                0 <= i <= n,
                n == s.len(),
                s == self.charts@,
                capacity_chart_wf(*self),
                key == key_dm(boom_length_mm as int),
                forall|j: int| 0 <= j < i ==> key_dm(
                    #[trigger] s[j].boom_length_mm as int) != key,
            ensures
                0 <= i <= n,
                forall|j: int| 0 <= j < i ==> key_dm(
                    #[trigger] s[j].boom_length_mm as int) != key,
                i == n || key_dm(s[i as int].boom_length_mm as int) == key,
            decreases n - i,
        {
            if i == n {
                break;
            }
            proof {
                assert(chart_wf(s[i as int]));
            }
            if chart_key(self.charts[i].boom_length_mm) == key {
                break;
            }
            i = i + 1;
        }
        proof {
            lemma_find_key_scan(s, key as int, i as int);
        }
        if i < n {
            return Some(i);
        }
        // no key match: first chart with minimal boom-length difference
        let mut best: usize = 0;
        proof {
            assert(chart_wf(s[0]));
        }
        let mut best_diff: i64 = abs_diff(self.charts[0].boom_length_mm, boom_length_mm);
        let mut j: usize = 1;
        while j < n
            invariant
                1 <= j <= n,
                best < j,
                n == s.len(),
                s == self.charts@,
                capacity_chart_wf(*self),
                0 <= boom_length_mm <= MAX_RADIUS_MM,
                best_diff == abs_int(s[best as int].boom_length_mm - boom_length_mm),
                forall|p: int| 0 <= p < j ==> abs_int(
                    #[trigger] s[p].boom_length_mm - boom_length_mm) >= best_diff,
                forall|p: int| 0 <= p < best ==> abs_int(
                    #[trigger] s[p].boom_length_mm - boom_length_mm) > best_diff,
            decreases n - j,
        {
            proof {
                assert(chart_wf(s[j as int]));
            }
            let d = abs_diff(self.charts[j].boom_length_mm, boom_length_mm);
            if d < best_diff {
                best = j;
                best_diff = d;
            }
            j = j + 1;
        }
        proof {
            lemma_closest_scan(s, boom_length_mm as int, best as int);
        }
        Some(best)
    }

    /// The chart [`CapacityChart::get_capacity`] reads, as a reference.
    pub fn find_chart_for_boom_length(&self, boom_length_mm: i64) -> (r: Option<&LoadChart>)
        requires
            capacity_chart_wf(*self),
            0 <= boom_length_mm <= MAX_RADIUS_MM,
        ensures
            match r {
                Some(c) => spec_chart_choice(self.charts@, boom_length_mm as int) is Some
                    && *c == self.charts@[spec_chart_choice(
                    self.charts@, boom_length_mm as int)->0],
                None => self.charts@.len() == 0,
            },
    {
        match self.find_chart_index(boom_length_mm) {
            Some(i) => Some(&self.charts[i]),
            None => None,
        }
    }

    /// Rated capacity for a configuration, fully de-rated.
    ///
    /// Selects the chart by exact 0.1 m key match, else by minimal
    /// boom-length difference; reads the capacity at the radius from that
    /// single chart (no cross-chart interpolation on this path); then
    /// applies the swing factor, the flat intermediate-outrigger factor when
    /// extension is below 100 %, and the on-tires factor.  `None` exactly
    /// when no chart is stored or the chart has no points.
    pub fn get_capacity(
        &self,
        boom_length_mm: i64,
        radius_mm: i64,
        swing_angle_mdeg: i64,
        outrigger_extension_pm: i64,
        on_tires: bool,
    ) -> (r: Option<i64>)
        requires
            capacity_chart_wf(*self),
            0 <= boom_length_mm <= MAX_RADIUS_MM,
            -MAX_RADIUS_MM <= radius_mm <= MAX_RADIUS_MM,
        ensures
            match spec_chart_choice(self.charts@, boom_length_mm as int) {
                None => r is None,
                Some(ci) => match spec_capacity_at(self.charts@[ci].points@, radius_mm as int) {
                    None => r is None,
                    Some(base) => r is Some && r->0 == spec_derate(*self, base,
                        swing_angle_mdeg as int, outrigger_extension_pm as int, on_tires)
                        && 0 <= r->0 <= MAX_CAPACITY_KG,
                },
            },
    {
        let ci = match self.find_chart_index(boom_length_mm) {
            Some(i) => i,
            None => {
                return None;
            },
        };
        let base = match self.charts[ci].get_capacity_at_radius(radius_mm) {
            Some(b) => b,
            None => {
                return None;
            },
        };
        let swing = self.get_swing_factor_pm(swing_angle_mdeg);
        let after_swing = apply_factor(base, swing);
        let after_outrigger = if outrigger_extension_pm < 1000 {
            apply_factor(after_swing, self.outrigger_intermediate_factor_pm)
        } else {
            after_swing
        };
        let capacity = if on_tires {
            apply_factor(after_outrigger, self.on_tires_factor_pm)
        } else {
            after_outrigger
        };
        Some(capacity)
    }
}

/// Absolute difference of two bounded lengths.
fn abs_diff(a: i64, b: i64) -> (r: i64)
    requires
        -MAX_RADIUS_MM <= a <= MAX_RADIUS_MM,
        -MAX_RADIUS_MM <= b <= MAX_RADIUS_MM,
    ensures
        r == abs_int(a - b),
{
    if a >= b {
        a - b
    } else {
        b - a
    }
}


/// The boom-length-interpolated capacity at a radius, with no de-rating.
///
/// The two charts whose boom lengths bracket the requested one are read at
/// the radius and the capacities interpolated linearly over boom length;
/// charts closer than 0.1 m in boom length count as the same chart, and a
/// single-sided bracket clamps to that chart.
pub open spec fn spec_capacity_interpolated(c: CapacityChart, boom: int, r: int) -> Option<int> {
    let lo = lower_chart_idx(c.charts@, boom);
    let hi = upper_chart_idx(c.charts@, boom);
    if lo is Some && hi is Some {
        let l = c.charts@[lo->0];
        let u = c.charts@[hi->0];
        if abs_int(l.boom_length_mm - u.boom_length_mm) < 100 {
            spec_capacity_at(l.points@, r)
        } else {
            match (spec_capacity_at(l.points@, r), spec_capacity_at(u.points@, r)) {
                (Some(cl), Some(cu)) => Some(
                    cl + (boom - l.boom_length_mm) * (cu - cl) / (u.boom_length_mm
                        - l.boom_length_mm),
                ),
                _ => None,
            }
        }
    } else if lo is Some {
        spec_capacity_at(c.charts@[lo->0].points@, r)
    } else if hi is Some {
        spec_capacity_at(c.charts@[hi->0].points@, r)
    } else {
        None
    }
}

impl CapacityChart {
    /// The first stored chart with the greatest boom length at or below the
    /// target, if any.
    fn lower_chart(&self, boom_length_mm: i64) -> (r: Option<usize>)
        requires
            capacity_chart_wf(*self),
            0 <= boom_length_mm <= MAX_RADIUS_MM,
        ensures
            match r {
                Some(i) => lower_chart_idx(self.charts@, boom_length_mm as int) == Some(i as int)
                    && i < self.charts@.len()
                    && self.charts@[i as int].boom_length_mm <= boom_length_mm,
                None => lower_chart_idx(self.charts@, boom_length_mm as int) is None,
            },
    {
        let ghost s = self.charts@;
        let n = self.charts.len();
        let mut best: usize = 0;
        let mut found = false;
        let mut best_bl: i64 = 0;
        let mut j: usize = 0;
        while j < n
            invariant
                0 <= j <= n,
                n == s.len(),
                s == self.charts@,
                capacity_chart_wf(*self),
                !found ==> forall|p: int| 0 <= p < j ==> #[trigger] s[p].boom_length_mm
                    > boom_length_mm,
                found ==> best < j && s[best as int].boom_length_mm <= boom_length_mm
                    && best_bl == s[best as int].boom_length_mm,
                found ==> forall|p: int| 0 <= p < j && #[trigger] s[p].boom_length_mm
                    <= boom_length_mm ==> s[p].boom_length_mm <= best_bl,
                found ==> forall|p: int| 0 <= p < best && #[trigger] s[p].boom_length_mm
                    <= boom_length_mm ==> s[p].boom_length_mm < best_bl,
            decreases n - j,
        {
            let bl = self.charts[j].boom_length_mm;
            if bl <= boom_length_mm && (!found || bl > best_bl) {
                best = j;
                best_bl = bl;
                found = true;
            }
            j = j + 1;
        }
        if found {
            proof {
                lemma_lower_scan(s, boom_length_mm as int, best as int);
            }
            Some(best)
        } else {
            proof {
                lemma_lower_in_range(s, boom_length_mm as int);
                if lower_chart_idx(s, boom_length_mm as int) is Some {
                    let i = lower_chart_idx(s, boom_length_mm as int)->0;
                    assert(s[i].boom_length_mm > boom_length_mm);
                }
            }
            None
        }
    }

    /// The first stored chart with the smallest boom length at or above the
    /// target, if any.
    fn upper_chart(&self, boom_length_mm: i64) -> (r: Option<usize>)
        requires
            capacity_chart_wf(*self),
            0 <= boom_length_mm <= MAX_RADIUS_MM,
        ensures
            match r {
                Some(i) => upper_chart_idx(self.charts@, boom_length_mm as int) == Some(i as int)
                    && i < self.charts@.len()
                    && self.charts@[i as int].boom_length_mm >= boom_length_mm,
                None => upper_chart_idx(self.charts@, boom_length_mm as int) is None,
            },
    {
        let ghost s = self.charts@;
        let n = self.charts.len();
        let mut best: usize = 0;
        let mut found = false;
        let mut best_bl: i64 = 0;
        let mut j: usize = 0;
        while j < n
            invariant
                0 <= j <= n,
                n == s.len(),
                s == self.charts@,
                capacity_chart_wf(*self),
                !found ==> forall|p: int| 0 <= p < j ==> #[trigger] s[p].boom_length_mm
                    < boom_length_mm,
                found ==> best < j && s[best as int].boom_length_mm >= boom_length_mm
                    && best_bl == s[best as int].boom_length_mm,
                found ==> forall|p: int| 0 <= p < j && #[trigger] s[p].boom_length_mm
                    >= boom_length_mm ==> s[p].boom_length_mm >= best_bl,
                found ==> forall|p: int| 0 <= p < best && #[trigger] s[p].boom_length_mm
                    >= boom_length_mm ==> s[p].boom_length_mm > best_bl,
            decreases n - j,
        {
            let bl = self.charts[j].boom_length_mm;
            if bl >= boom_length_mm && (!found || bl < best_bl) {
                best = j;
                best_bl = bl;
                found = true;
            }
            j = j + 1;
        }
        if found {
            proof {
                lemma_upper_scan(s, boom_length_mm as int, best as int);
            }
            Some(best)
        } else {
            proof {
                lemma_upper_in_range(s, boom_length_mm as int);
                if upper_chart_idx(s, boom_length_mm as int) is Some {
                    let i = upper_chart_idx(s, boom_length_mm as int)->0;
                    assert(s[i].boom_length_mm < boom_length_mm);
                }
            }
            None
        }
    }

    /// Capacity at a radius, interpolated linearly between the two charts
    /// whose boom lengths bracket the requested one.  No de-rating factor is
    /// applied on this path; the result equals
    /// [`spec_capacity_interpolated`].
    pub fn get_capacity_interpolated(&self, boom_length_mm: i64, radius_mm: i64) -> (r: Option<
        i64,
    >)
        requires
            capacity_chart_wf(*self),
            0 <= boom_length_mm <= MAX_RADIUS_MM,
            -MAX_RADIUS_MM <= radius_mm <= MAX_RADIUS_MM,
        ensures
            match r {
                Some(c) => spec_capacity_interpolated(*self, boom_length_mm as int,
                    radius_mm as int) == Some(c as int) && 0 <= c <= MAX_CAPACITY_KG,
                None => spec_capacity_interpolated(*self, boom_length_mm as int,
                    radius_mm as int) is None,
            },
    {
        let lo = self.lower_chart(boom_length_mm);
        let hi = self.upper_chart(boom_length_mm);
        match (lo, hi) {
            (Some(li), Some(ui)) => {
                proof {
                    assert(chart_wf(self.charts@[li as int]));
                    assert(chart_wf(self.charts@[ui as int]));
                }
                let l_bl = self.charts[li].boom_length_mm;
                let u_bl = self.charts[ui].boom_length_mm;
                let diff = abs_diff(l_bl, u_bl);
                if diff < 100 {
                    self.charts[li].get_capacity_at_radius(radius_mm)
                } else {
                    let cl = match self.charts[li].get_capacity_at_radius(radius_mm) {
                        Some(c) => c,
                        None => {
                            return None;
                        },
                    };
                    let cu = match self.charts[ui].get_capacity_at_radius(radius_mm) {
                        Some(c) => c,
                        None => {
                            return None;
                        },
                    };
                    proof {
                        lemma_lerp_in_range(boom_length_mm - l_bl, u_bl - l_bl, cl as int,
                            cu as int);
                        assert(-2_000_000_000_000_000_000 <= (boom_length_mm - l_bl) as int * (
                        (cu - cl) as int) <= 2_000_000_000_000_000_000) by (nonlinear_arith)
                            requires
                                0 <= boom_length_mm - l_bl <= 2_000_000_000 && -1_000_000_000 <= cu
                                    - cl <= 1_000_000_000;
                    }
                    let t: i64 = crate::num::div_floor_i128(
                        ((boom_length_mm - l_bl) as i128) * ((cu - cl) as i128),
                        (u_bl - l_bl) as i128,
                    ) as i64;
                    Some(cl + t)
                }
            },
            (Some(li), None) => self.charts[li].get_capacity_at_radius(radius_mm),
            (None, Some(ui)) => self.charts[ui].get_capacity_at_radius(radius_mm),
            (None, None) => None,
        }
    }
}



/// The example chart system's exact content: the three tabulated boom
/// lengths with their radius and capacity points, under the default
/// de-rating factors.
pub open spec fn spec_example_chart(c: CapacityChart) -> bool {
    &&& c.charts@.len() == 3
    &&& c.over_side_factor_pm == 850
    &&& c.over_rear_factor_pm == 750
    &&& c.dynamic_factor_pm == 850
    &&& c.outrigger_intermediate_factor_pm == 850
    &&& c.on_tires_factor_pm == 400
    &&& c.charts@[0].boom_length_mm == 30_000
    &&& c.charts@[0].points@ == seq![
        (crate::chart::CapacityPoint { radius_mm: 3_000, capacity_kg: 100_000 }),
        (crate::chart::CapacityPoint { radius_mm: 5_000, capacity_kg: 80_000 }),
        (crate::chart::CapacityPoint { radius_mm: 10_000, capacity_kg: 40_000 }),
        (crate::chart::CapacityPoint { radius_mm: 15_000, capacity_kg: 25_000 }),
        (crate::chart::CapacityPoint { radius_mm: 20_000, capacity_kg: 15_000 }),
        (crate::chart::CapacityPoint { radius_mm: 25_000, capacity_kg: 10_000 }),
    ]
    &&& c.charts@[1].boom_length_mm == 40_000
    &&& c.charts@[1].points@ == seq![
        (crate::chart::CapacityPoint { radius_mm: 3_000, capacity_kg: 90_000 }),
        (crate::chart::CapacityPoint { radius_mm: 5_000, capacity_kg: 70_000 }),
        (crate::chart::CapacityPoint { radius_mm: 10_000, capacity_kg: 35_000 }),
        (crate::chart::CapacityPoint { radius_mm: 20_000, capacity_kg: 12_000 }),
        (crate::chart::CapacityPoint { radius_mm: 30_000, capacity_kg: 7_000 }),
        (crate::chart::CapacityPoint { radius_mm: 35_000, capacity_kg: 5_000 }),
    ]
    &&& c.charts@[2].boom_length_mm == 50_000
    &&& c.charts@[2].points@ == seq![
        (crate::chart::CapacityPoint { radius_mm: 3_000, capacity_kg: 80_000 }),
        (crate::chart::CapacityPoint { radius_mm: 10_000, capacity_kg: 30_000 }),
        (crate::chart::CapacityPoint { radius_mm: 20_000, capacity_kg: 10_000 }),
        (crate::chart::CapacityPoint { radius_mm: 30_000, capacity_kg: 6_000 }),
        (crate::chart::CapacityPoint { radius_mm: 40_000, capacity_kg: 4_000 }),
        (crate::chart::CapacityPoint { radius_mm: 45_000, capacity_kg: 3_000 }),
    ]
}

impl CapacityChart {
    /// An example capacity chart for a 100 t all-terrain crane: three boom
    /// lengths with tabulated radius and capacity points; the exact content
    /// is [`spec_example_chart`].
    pub fn example_liebherr_ltm_1100() -> (c: CapacityChart)
        ensures
            capacity_chart_wf(c),
            spec_example_chart(c),
    {
        let mut chart_30 = LoadChart::new(30_000);
        chart_30.add_point(3_000, 100_000);
        chart_30.add_point(5_000, 80_000);
        chart_30.add_point(10_000, 40_000);
        chart_30.add_point(15_000, 25_000);
        chart_30.add_point(20_000, 15_000);
        chart_30.add_point(25_000, 10_000);
        let mut chart_40 = LoadChart::new(40_000);
        chart_40.add_point(3_000, 90_000);
        chart_40.add_point(5_000, 70_000);
        chart_40.add_point(10_000, 35_000);
        chart_40.add_point(20_000, 12_000);
        chart_40.add_point(30_000, 7_000);
        chart_40.add_point(35_000, 5_000);
        let mut chart_50 = LoadChart::new(50_000);
        chart_50.add_point(3_000, 80_000);
        chart_50.add_point(10_000, 30_000);
        chart_50.add_point(20_000, 10_000);
        chart_50.add_point(30_000, 6_000);
        chart_50.add_point(40_000, 4_000);
        chart_50.add_point(45_000, 3_000);
        proof {
            assert(chart_30.points@ =~= seq![
                (crate::chart::CapacityPoint { radius_mm: 3_000, capacity_kg: 100_000 }),
                (crate::chart::CapacityPoint { radius_mm: 5_000, capacity_kg: 80_000 }),
                (crate::chart::CapacityPoint { radius_mm: 10_000, capacity_kg: 40_000 }),
                (crate::chart::CapacityPoint { radius_mm: 15_000, capacity_kg: 25_000 }),
                (crate::chart::CapacityPoint { radius_mm: 20_000, capacity_kg: 15_000 }),
                (crate::chart::CapacityPoint { radius_mm: 25_000, capacity_kg: 10_000 }),
            ]);
            assert(chart_40.points@ =~= seq![
                (crate::chart::CapacityPoint { radius_mm: 3_000, capacity_kg: 90_000 }),
                (crate::chart::CapacityPoint { radius_mm: 5_000, capacity_kg: 70_000 }),
                (crate::chart::CapacityPoint { radius_mm: 10_000, capacity_kg: 35_000 }),
                (crate::chart::CapacityPoint { radius_mm: 20_000, capacity_kg: 12_000 }),
                (crate::chart::CapacityPoint { radius_mm: 30_000, capacity_kg: 7_000 }),
                (crate::chart::CapacityPoint { radius_mm: 35_000, capacity_kg: 5_000 }),
            ]);
            assert(chart_50.points@ =~= seq![
                (crate::chart::CapacityPoint { radius_mm: 3_000, capacity_kg: 80_000 }),
                (crate::chart::CapacityPoint { radius_mm: 10_000, capacity_kg: 30_000 }),
                (crate::chart::CapacityPoint { radius_mm: 20_000, capacity_kg: 10_000 }),
                (crate::chart::CapacityPoint { radius_mm: 30_000, capacity_kg: 6_000 }),
                (crate::chart::CapacityPoint { radius_mm: 40_000, capacity_kg: 4_000 }),
                (crate::chart::CapacityPoint { radius_mm: 45_000, capacity_kg: 3_000 }),
            ]);
        }
        let mut c = CapacityChart::new();
        proof {
            vstd::arithmetic::div_mod::lemma_fundamental_div_mod_converse(30050, 100, 300, 50);
            vstd::arithmetic::div_mod::lemma_fundamental_div_mod_converse(40050, 100, 400, 50);
            vstd::arithmetic::div_mod::lemma_fundamental_div_mod_converse(50050, 100, 500, 50);
        }
        let ghost s0 = c.charts@;
        c.add_chart(chart_30);
        let ghost s1 = c.charts@;
        proof {
            lemma_find_key_scan(s0, 300, 0);
            assert(s1 == s0.push(chart_30));
            lemma_find_key_scan(s1, 400, 1);
        }
        c.add_chart(chart_40);
        let ghost s2 = c.charts@;
        proof {
            assert(s2 == s1.push(chart_40));
            lemma_find_key_scan(s2, 500, 2);
        }
        c.add_chart(chart_50);
        c
    }
}

} // verus!
