//! The rigging statics solver: multi-sling tension solving, per-sling
//! capacity and safety analysis, balance checking and advisory warnings.
//!
//! One sling carries the whole load; two slings split it by a planar moment
//! balance about the centre of gravity with a per-sling angle correction;
//! three slings are solved exactly by Cramer's rule over the unit direction
//! matrix; four to six slings are statically indeterminate and are rejected
//! only when the direction matrix is degenerate, otherwise solved through
//! the same exact machinery on the three best-conditioned directions of the
//! normal system.  Weights are kilograms, positions millimetres, angles
//! millidegrees, utilizations parts per thousand.

use vstd::prelude::*;
use crate::errors::RiggingError;
use crate::geom::{
    point_in_bounds, point_sub, spec_norm, spec_norm_sq, spec_sub, norm_mm, vec_in_bounds_wide,
    Point3Mm, Vec3Mm,
};
use crate::num::{abs_int, div_floor_i128};
use crate::statics::{
    det_units, det_with_vertical, scaled_unit, spec_det3, spec_newtons_to_kg, spec_scaled_unit,
    spec_triple, newtons_to_kg, unit_bounded, DET_EPS_SCALED,
};
use crate::trig::{acos_mdeg, cos_mdeg, spec_acos_mdeg, spec_cos_mdeg};

verus! {

/// Heaviest load the solver accepts.
pub const MAX_LOAD_KG: i64 = 1_000_000_000;

/// A normal-system determinant below this counts as rank-deficient.
pub const DET_EPS_MULTI: i128 = 1_000_000_000_000;

/// A second symmetric function below this counts as rank one at most.
pub const E2_EPS_MULTI: i128 = 1_000_000_000_000;

/// A trace below this defeats the least-squares solve altogether.
pub const TR_EPS_MULTI: i64 = 100_000;

/// Type of sling hitch.
#[derive(Clone, Copy, Debug, PartialEq, Eq, Structural)]
pub enum HitchType {
    /// Straight up and down.
    Vertical,
    /// Wrapped around the load; bending costs a quarter of the capacity.
    Choker,
    /// Under the load and both ends to the hook: two legs, double capacity.
    Basket,
    /// Multiple slings to a single point.
    Bridle,
}

/// The capacity factor of each hitch relative to a vertical hitch, in parts
/// per thousand.
pub open spec fn spec_hitch_factor_pm(h: HitchType) -> int {
    match h {
        HitchType::Vertical => 1000,
        HitchType::Choker => 750,
        HitchType::Basket => 2000,
        HitchType::Bridle => 1000,
    }
}

impl HitchType {
    /// Capacity factor relative to a vertical hitch, in parts per thousand;
    /// the result equals [`spec_hitch_factor_pm`].
    pub fn capacity_factor_pm(&self) -> (r: i64)
        ensures
            r == spec_hitch_factor_pm(*self),
            750 <= r <= 2000,
    {
        match self {
            HitchType::Vertical => 1000,
            HitchType::Choker => 750,
            HitchType::Basket => 2000,
            HitchType::Bridle => 1000,
        }
    }
}

/// Wire rope grades.
#[derive(Clone, Copy, Debug, PartialEq, Eq, Structural)]
pub enum WireRopeGrade {
    ImprovedPlowSteel,
    ExtraImprovedPlowSteel,
}

/// Chain grades.
#[derive(Clone, Copy, Debug, PartialEq, Eq, Structural)]
pub enum ChainGrade {
    Grade80,
    Grade100,
}

/// Synthetic sling materials.
#[derive(Clone, Copy, Debug, PartialEq, Eq, Structural)]
pub enum SyntheticMaterial {
    Nylon,
    Polyester,
    Dyneema,
}

/// Sling material families.
#[derive(Clone, Copy, Debug, PartialEq, Structural)]
pub enum SlingMaterial {
    WireRope { grade: WireRopeGrade },
    Chain { grade: ChainGrade },
    Synthetic { material: SyntheticMaterial },
}

/// Sling material and ratings.
#[derive(Clone, Debug)]
pub struct SlingSpec {
    pub id: String,
    pub material: SlingMaterial,
    /// Rope or chain diameter.
    pub diameter_mm: Option<i64>,
    /// Webbing width for synthetic slings.
    pub width_mm: Option<i64>,
    pub length_mm: i64,
    /// Vertical-hitch rated capacity.
    pub rated_capacity_kg: i64,
    /// Rated safety factor in parts per thousand; typically 5000 for 5:1.
    pub safety_factor_pm: i64,
}

/// A sling spec within the engine's bounds.
pub open spec fn sling_spec_ok(s: SlingSpec) -> bool {
    &&& (s.diameter_mm is Some ==> 0 <= s.diameter_mm->0 <= 1_000_000)
    &&& (s.width_mm is Some ==> 0 <= s.width_mm->0 <= 1_000_000)
    &&& 0 <= s.length_mm <= 1_000_000
    &&& 0 <= s.rated_capacity_kg <= MAX_LOAD_KG
    &&& 0 <= s.safety_factor_pm <= 1_000_000
}

/// A single sling in the rigging configuration.
#[derive(Clone, Debug)]
pub struct Sling {
    pub spec: SlingSpec,
    pub hitch_type: HitchType,
    /// Where the sling attaches to the load.
    pub attachment_point: Point3Mm,
    /// Where the sling meets the crane hook.
    pub hook_point: Point3Mm,
    /// Filled in by analysis.
    pub angle_from_vertical_mdeg: Option<i64>,
    /// Filled in by analysis.
    pub tension_kg: Option<i64>,
}

/// A sling within the engine's bounds.
pub open spec fn sling_ok(s: Sling) -> bool {
    &&& sling_spec_ok(s.spec)
    &&& point_in_bounds(s.attachment_point)
    &&& point_in_bounds(s.hook_point)
}

/// The direction a sling pulls along: hook point minus attachment point.
pub open spec fn spec_sling_vec(s: Sling) -> Vec3Mm {
    spec_sub(s.hook_point, s.attachment_point)
}

/// The cosine of a sling's angle from vertical, scaled by one million and
/// clamped into the unit range: the vertical share of the unit direction.
/// The reference is the full unit vertical axis, so a truly vertical sling
/// reads a cosine of exactly one.
pub open spec fn spec_sling_cos(v: Vec3Mm) -> int {
    let c = v.z * 1_000_000 / spec_norm(v);
    if c > 1_000_000 {
        1_000_000
    } else if c < -1_000_000 {
        -1_000_000
    } else {
        c
    }
}

/// A sling's angle from vertical in millidegrees.
pub open spec fn spec_sling_angle_mdeg(v: Vec3Mm) -> int {
    spec_acos_mdeg(spec_sling_cos(v))
}

/// Rigging hardware items.
#[derive(Clone, Debug)]
pub enum HardwareType {
    Shackle { size_mm: i64 },
    Hook { name: String },
    SpreaderBeam { length_mm: i64 },
    SpreaderFrame { width_mm: i64, length_mm: i64 },
    LiftingBeam { length_mm: i64, beam_weight_kg: i64 },
    SnatchBlock { sheave_diameter_mm: i64 },
    Swivel,
}

/// A piece of rigging hardware in the assembly.
#[derive(Clone, Debug)]
pub struct RiggingHardware {
    pub hardware_type: HardwareType,
    pub rated_capacity_kg: i64,
    pub weight_kg: i64,
    pub position: Point3Mm,
}

/// The load being lifted.
#[derive(Clone, Debug)]
pub struct Load {
    pub weight_kg: i64,
    /// Centre of gravity relative to the load origin.
    pub center_of_gravity: Point3Mm,
    /// Bounding box for collision checks.
    pub dimensions: Vec3Mm,
    /// Pick points where slings can attach; some may be inactive.
    pub pick_points: Vec<PickPoint>,
}

/// A load within the engine's bounds.
pub open spec fn load_ok(l: Load) -> bool {
    &&& 0 <= l.weight_kg <= MAX_LOAD_KG
    &&& point_in_bounds(l.center_of_gravity)
    &&& crate::geom::vec_in_bounds(l.dimensions)
    &&& 0 <= l.dimensions.x && 0 <= l.dimensions.y && 0 <= l.dimensions.z
}

/// A pick point on the load.
#[derive(Clone, Debug)]
pub struct PickPoint {
    pub id: String,
    pub position: Point3Mm,
    /// Whether this pick point is being used.
    pub active: bool,
}

/// A complete rigging configuration for one analysis run.
#[derive(Clone, Debug)]
pub struct RiggingConfiguration {
    pub load: Load,
    pub slings: Vec<Sling>,
    pub hardware: Vec<RiggingHardware>,
    pub crane_hook_position: Point3Mm,
}

/// A well-formed rigging configuration.
pub open spec fn rigging_config_wf(c: RiggingConfiguration) -> bool {
    &&& load_ok(c.load)
    &&& forall|i: int| 0 <= i < c.slings@.len() ==> sling_ok(#[trigger] c.slings@[i])
    &&& forall|i: int| 0 <= i < c.hardware@.len() ==> 0 <= (#[trigger] c.hardware@[i]).weight_kg
        <= MAX_LOAD_KG
    &&& c.hardware@.len() <= 1000
    &&& point_in_bounds(c.crane_hook_position)
}

/// Tension report of one sling.
#[derive(Clone, Debug)]
pub struct SlingTensionAnalysis {
    pub sling_id: String,
    pub tension_kg: i64,
    /// The same tension in whole newtons.
    pub tension_n: i64,
    pub angle_from_vertical_mdeg: i64,
    /// De-rated capacity: rated capacity times the angle and hitch factors.
    pub capacity_kg: i64,
    /// Tension over capacity in parts per thousand.
    pub utilization_pm: i64,
    pub is_safe: bool,
}

/// Safety summary of a rigging run.
#[derive(Clone, Debug)]
pub struct SafetyAnalysis {
    /// The smallest capacity-over-tension ratio across the slings, in parts
    /// per thousand; the largest representable value when no sling carries
    /// tension.
    pub overall_safety_factor_pm: i64,
    pub critical_sling_id: Option<String>,
    pub is_configuration_safe: bool,
    pub cog_offset_from_hook_mm: Vec3Mm,
}

/// An advisory warning; none of these fails an analysis.  Slings are
/// referred to by their position in the analysis.
#[derive(Clone, Copy, Debug, PartialEq, Eq, Structural)]
pub enum RiggingWarning {
    /// The sling leans more than 60 degrees from vertical.
    ShallowAngle { sling_index: usize, angle_mdeg: i64 },
    /// The sling is loaded beyond 90 percent of its capacity.
    HighUtilization { sling_index: usize, utilization_pm: i64 },
    /// The sling is loaded beyond its capacity.
    Overloaded { sling_index: usize, utilization_pm: i64 },
    /// The overall safety factor falls below 5:1.
    LowSafetyFactor { factor_pm: i64 },
    /// The centre of gravity hangs more than 0.2 m from the hook.
    CogOffset { offset_mm: i64 },
}

/// The outcome of one rigging analysis.
#[derive(Clone, Debug)]
pub struct RiggingAnalysis {
    pub sling_tensions: Vec<SlingTensionAnalysis>,
    pub total_rigging_weight_kg: i64,
    pub is_balanced: bool,
    /// Approximate tilt around the X and Y axes when unbalanced.
    pub tilt_angle_mdeg: Option<Vec3Mm>,
    pub safety_analysis: SafetyAnalysis,
    pub warnings: Vec<RiggingWarning>,
}

/// Dynamic effects applied on top of a static tension.
#[derive(Clone, Copy, Debug)]
pub struct DynamicFactors {
    pub impact_loading: bool,
    /// Wind speed in millimetres per second.
    pub wind_speed_mms: i64,
}

/// The rigging statics calculator.
pub struct RiggingCalculator;

/// The de-rated capacity of a sling at an angle: the rated capacity scaled
/// by the cosine of the angle from vertical and by the hitch factor.
pub open spec fn spec_sling_capacity_kg(rated: int, angle_mdeg: int, hitch_pm: int) -> int {
    rated * spec_cos_mdeg(angle_mdeg) / 1_000_000 * hitch_pm / 1000
}

/// Tension over capacity in parts per thousand, clamped; a capacity of zero
/// reads as full overload unless the tension is zero too.
pub open spec fn spec_utilization_pm(tension: int, capacity: int) -> int {
    if capacity > 0 {
        let u = tension * 1000 / capacity;
        if u > 0x7fff_ffff_ffff_ffff {
            0x7fff_ffff_ffff_ffff
        } else {
            u
        }
    } else if tension == 0 {
        0
    } else {
        0x7fff_ffff_ffff_ffff
    }
}

/// What a sling's report must say of the sling and its solved tension: the
/// identifier, the tension in kilograms and newtons, the angle from
/// vertical, the de-rated capacity, the utilization and the safety flag.
pub open spec fn spec_analysis_matches(sling: Sling, tension_kg: int, a: SlingTensionAnalysis) -> bool {
    let v = spec_sling_vec(sling);
    let angle = spec_sling_angle_mdeg(v);
    let capacity = spec_sling_capacity_kg(sling.spec.rated_capacity_kg as int, angle,
        spec_hitch_factor_pm(sling.hitch_type));
    &&& a.sling_id@ == sling.spec.id@
    &&& a.tension_kg == tension_kg
    &&& a.tension_n == tension_kg * 981 / 100
    &&& a.angle_from_vertical_mdeg == angle
    &&& a.capacity_kg == capacity
    &&& a.utilization_pm == spec_utilization_pm(tension_kg, capacity)
    &&& (a.is_safe <==> a.utilization_pm <= 1000)
}

impl RiggingCalculator {
    /// Analyze one sling carrying a known tension: its angle from vertical,
    /// de-rated capacity, utilization and safety.  Fails if and only if the
    /// sling is shorter than a millimetre.
    pub fn analyze_single_sling(sling: &Sling, tension_kg: i64) -> (r: Result<
        SlingTensionAnalysis,
        RiggingError,
    >)
        requires
            sling_ok(*sling),
            0 <= tension_kg <= 900_000_000_000_000_000,
        ensures
            r is Ok <==> spec_norm_sq(spec_sling_vec(*sling)) >= 1,
            r is Err ==> r->Err_0 is InvalidConfiguration,
            r is Ok ==> spec_analysis_matches(*sling, tension_kg as int, r->Ok_0) && -2
                * MAX_LOAD_KG <= r->Ok_0.capacity_kg <= 2 * MAX_LOAD_KG,
    {
        let v = point_sub(&sling.hook_point, &sling.attachment_point);
        let n = norm_mm(&v);
        if n < 1 {
            proof {
                assert(v.x * v.x >= 0 && v.y * v.y >= 0 && v.z * v.z >= 0) by (nonlinear_arith);
                crate::num::lemma_isqrt_is_isqrt(spec_norm_sq(v));
                assert(spec_norm_sq(v) >= 1 ==> spec_norm(v) >= 1) by (nonlinear_arith)
                    requires
                        (spec_norm(v) + 1) * (spec_norm(v) + 1) > spec_norm_sq(v) && spec_norm(v)
                            >= 0;
            }
            return Err(RiggingError::InvalidConfiguration(String::from_str(
                "Sling length too short",
            )));
        }
        proof {
            crate::num::lemma_isqrt_is_isqrt(spec_norm_sq(v));
            assert(spec_norm_sq(v) >= 1) by (nonlinear_arith)
                requires spec_norm(v) * spec_norm(v) <= spec_norm_sq(v) && spec_norm(v) >= 1;
        }
        let angle = sling_angle_mdeg(&v);
        let capacity = sling_capacity_kg(sling.spec.rated_capacity_kg, angle,
            sling.hitch_type.capacity_factor_pm());
        proof {
            assert(0 <= (tension_kg as int) * 981 <= 882_900_000_000_000_000_000)
                by (nonlinear_arith)
                requires 0 <= tension_kg <= 900_000_000_000_000_000;
            vstd::arithmetic::div_mod::lemma_div_pos_is_pos((tension_kg as int) * 981, 100);
            vstd::arithmetic::div_mod::lemma_div_is_ordered((tension_kg as int) * 981,
                882_900_000_000_000_000_000, 100);
            vstd::arithmetic::div_mod::lemma_div_multiples_vanish(8_829_000_000_000_000_000, 100);
        }
        let tension_n: i64 = div_floor_i128((tension_kg as i128) * 981, 100) as i64;
        let utilization_pm: i64 = if capacity > 0 {
            proof {
                assert(0 <= (tension_kg as int) * 1000 <= 900_000_000_000_000_000_000)
                    by (nonlinear_arith)
                    requires 0 <= tension_kg <= 900_000_000_000_000_000;
                vstd::arithmetic::div_mod::lemma_div_pos_is_pos(
                    (tension_kg as int) * 1000, capacity as int);
            }
            let u = div_floor_i128((tension_kg as i128) * 1000, capacity as i128);
            if u > 0x7fff_ffff_ffff_ffff {
                i64::MAX
            } else {
                u as i64
            }
        } else if tension_kg == 0 {
            0
        } else {
            i64::MAX
        };
        let is_safe = utilization_pm <= 1000;
        Ok(SlingTensionAnalysis {
            sling_id: clone_string(&sling.spec.id),
            tension_kg,
            tension_n,
            angle_from_vertical_mdeg: angle,
            capacity_kg: capacity,
            utilization_pm,
            is_safe,
        })
    }

    /// The angle of a sling from vertical, in millidegrees.
    pub fn calculate_sling_angle(sling: &Sling) -> (r: Result<i64, RiggingError>)
        requires
            sling_ok(*sling),
        ensures
            r is Ok <==> spec_norm_sq(spec_sling_vec(*sling)) >= 1,
            r is Err ==> r->Err_0 is InvalidConfiguration,
            r is Ok ==> r->Ok_0 == spec_sling_angle_mdeg(spec_sling_vec(*sling)) && 0 <= r->Ok_0
                <= 180_000,
    {
        let v = point_sub(&sling.hook_point, &sling.attachment_point);
        let n = norm_mm(&v);
        if n < 1 {
            proof {
                assert(v.x * v.x >= 0 && v.y * v.y >= 0 && v.z * v.z >= 0) by (nonlinear_arith);
                crate::num::lemma_isqrt_is_isqrt(spec_norm_sq(v));
                assert(spec_norm_sq(v) >= 1 ==> spec_norm(v) >= 1) by (nonlinear_arith)
                    requires
                        (spec_norm(v) + 1) * (spec_norm(v) + 1) > spec_norm_sq(v) && spec_norm(v)
                            >= 0;
            }
            return Err(RiggingError::InvalidConfiguration(String::from_str(
                "Sling length too short",
            )));
        }
        proof {
            crate::num::lemma_isqrt_is_isqrt(spec_norm_sq(v));
            assert(spec_norm_sq(v) >= 1) by (nonlinear_arith)
                requires spec_norm(v) * spec_norm(v) <= spec_norm_sq(v) && spec_norm(v) >= 1;
        }
        Ok(sling_angle_mdeg(&v))
    }
}

/// Clone a string, keeping its view.
fn clone_string(s: &String) -> (r: String)
    ensures
        r@ == s@,
{
    String::from_str(s.as_str())
}

/// The angle of a direction from vertical, in millidegrees.
fn sling_angle_mdeg(v: &Vec3Mm) -> (r: i64)
    requires
        crate::geom::vec_in_bounds_wide(*v),
        spec_norm_sq(*v) >= 1,
    ensures
        r == spec_sling_angle_mdeg(*v),
        0 <= r <= 180_000,
{
    let n = norm_mm(v);
    proof {
        crate::num::lemma_isqrt_is_isqrt(spec_norm_sq(*v));
        assert(n >= 1) by (nonlinear_arith)
            requires
                (n as int + 1) * (n as int + 1) > spec_norm_sq(*v) && spec_norm_sq(*v) >= 1 && n
                    >= 0;
    }
    let c128: i128 = div_floor_i128((v.z as i128) * 1_000_000, n as i128);
    let c: i64 = if c128 > 1_000_000 {
        1_000_000
    } else if c128 < -1_000_000 {
        -1_000_000
    } else {
        c128 as i64
    };
    acos_mdeg(c)
}

/// The de-rated capacity of a sling: rated capacity scaled by the cosine of
/// the angle from vertical, then by the hitch factor.
fn sling_capacity_kg(rated_kg: i64, angle_mdeg: i64, hitch_pm: i64) -> (r: i64)
    requires
        0 <= rated_kg <= MAX_LOAD_KG,
        -360_000_000 <= angle_mdeg <= 360_000_000,
        750 <= hitch_pm <= 2000,
    ensures
        r == spec_sling_capacity_kg(rated_kg as int, angle_mdeg as int, hitch_pm as int),
        -2 * MAX_LOAD_KG <= r <= 2 * MAX_LOAD_KG,
{
    let cosv = cos_mdeg(angle_mdeg);
    proof {
        assert(-1_000_000_000_000_000 <= (rated_kg as int) * (cosv as int)
            <= 1_000_000_000_000_000) by (nonlinear_arith)
            requires 0 <= rated_kg <= 1_000_000_000 && -1_000_000 <= cosv <= 1_000_000;
        vstd::arithmetic::div_mod::lemma_div_is_ordered((rated_kg as int) * (cosv as int),
            1_000_000_000_000_000, 1_000_000);
        vstd::arithmetic::div_mod::lemma_div_is_ordered(-1_000_000_000_000_000,
            (rated_kg as int) * (cosv as int), 1_000_000);
        vstd::arithmetic::div_mod::lemma_div_multiples_vanish(1_000_000_000, 1_000_000);
        vstd::arithmetic::div_mod::lemma_div_multiples_vanish(-1_000_000_000, 1_000_000);
    }
    let base: i64 = div_floor_i128((rated_kg as i128) * (cosv as i128), 1_000_000) as i64;
    proof {
        assert(-2_000_000_000_000 <= (base as int) * (hitch_pm as int) <= 2_000_000_000_000)
            by (nonlinear_arith)
            requires -1_000_000_000 <= base <= 1_000_000_000 && 750 <= hitch_pm <= 2000;
        vstd::arithmetic::div_mod::lemma_div_is_ordered((base as int) * (hitch_pm as int),
            2_000_000_000_000, 1000);
        vstd::arithmetic::div_mod::lemma_div_is_ordered(-2_000_000_000_000,
            (base as int) * (hitch_pm as int), 1000);
        vstd::arithmetic::div_mod::lemma_div_multiples_vanish(2_000_000_000, 1000);
        vstd::arithmetic::div_mod::lemma_div_multiples_vanish(-2_000_000_000, 1000);
    }
    div_floor_i128((base as i128) * (hitch_pm as i128), 1000) as i64
}

/// The quotient of a Cramer solution, with the sign moved onto the
/// numerator so that the division is by a positive determinant.
pub open spec fn spec_cramer_quotient(num: int, det: int) -> int {
    if det > 0 {
        num / det
    } else {
        (-num) / (-det)
    }
}

/// Divide a Cramer numerator by a nonzero determinant.
fn cramer_div(num: i128, det: i128, Ghost(mn): Ghost<int>) -> (r: i128)
    requires
        abs_int(det as int) >= 1000,
        abs_int(det as int) <= 0x1_0000_0000_0000_0000,
        abs_int(num as int) <= mn,
        0 <= mn <= 0x1_0000_0000_0000_0000_0000_0000,
    ensures
        r == spec_cramer_quotient(num as int, det as int),
        abs_int(r as int) <= mn / 1000 + 1,
{
    if det > 0 {
        proof {
            crate::num::lemma_quotient_bound(num as int, det as int, mn, 1000);
        }
        div_floor_i128(num, det)
    } else {
        proof {
            crate::num::lemma_quotient_bound(-(num as int), -(det as int), mn, 1000);
        }
        div_floor_i128(-num, -det)
    }
}

/// The moment-balance tensions of a two-sling lift, before and after the
/// per-sling angle correction: the load splits in inverse proportion to the
/// straight-line distances of the attachments from the centre of gravity,
/// and each share is divided by the cosine of that sling's angle from
/// vertical.
pub open spec fn spec_two_sling_tensions(
    w: int,
    r1: int,
    r2: int,
    cos1: int,
    cos2: int,
) -> (int, int) {
    let t1 = w * r2 / (r1 + r2);
    let t2 = w * r1 / (r1 + r2);
    (t1 * 1_000_000 / cos1, t2 * 1_000_000 / cos2)
}

impl RiggingCalculator {
    /// Solve a two-sling lift by planar moment balance about the centre of
    /// gravity, with a per-sling angle correction.  This layers a
    /// one-dimensional balance with individual corrections; it is not a full
    /// three-dimensional moment balance.  Fails if and only if the
    /// attachments sit at the centre of gravity, a sling is shorter than a
    /// millimetre, or a sling does not point upward.
    pub fn solve_two_sling_system(load: &Load, slings: &Vec<Sling>) -> (r: Result<
        Vec<i64>,
        RiggingError,
    >)
        requires
            load_ok(*load),
            slings@.len() == 2,
            forall|i: int| 0 <= i < 2 ==> sling_ok(#[trigger] slings@[i]),
        ensures
            ({
                let r1 = spec_norm(spec_sub(slings@[0].attachment_point, load.center_of_gravity));
                let r2 = spec_norm(spec_sub(slings@[1].attachment_point, load.center_of_gravity));
                let v1 = spec_sling_vec(slings@[0]);
                let v2 = spec_sling_vec(slings@[1]);
                let cos1 = spec_cos_mdeg(spec_sling_angle_mdeg(v1));
                let cos2 = spec_cos_mdeg(spec_sling_angle_mdeg(v2));
                let solvable = r1 + r2 >= 1 && spec_norm_sq(v1) >= 1 && spec_norm_sq(v2) >= 1
                    && cos1 >= 1 && cos2 >= 1;
                &&& (r is Ok <==> solvable)
                &&& (r is Err ==> r->Err_0 is InvalidConfiguration)
                &&& (r is Ok ==> {
                    let t = spec_two_sling_tensions(load.weight_kg as int, r1, r2, cos1, cos2);
                    r->Ok_0@.len() == 2 && r->Ok_0@[0] == t.0 && r->Ok_0@[1] == t.1 && 0
                        <= r->Ok_0@[0] <= 1_000_000_000_000_000 && 0 <= r->Ok_0@[1]
                        <= 1_000_000_000_000_000
                })
            }),
    {
        let r1 = crate::geom::dist_mm(&slings[0].attachment_point, &load.center_of_gravity);
        let r2 = crate::geom::dist_mm(&slings[1].attachment_point, &load.center_of_gravity);
        if r1 + r2 < 1 {
            return Err(RiggingError::InvalidConfiguration(String::from_str(
                "Pick points too close to center of gravity",
            )));
        }
        let angle1 = match Self::calculate_sling_angle(&slings[0]) {
            Ok(a) => a,
            Err(e) => {
                return Err(e);
            },
        };
        let angle2 = match Self::calculate_sling_angle(&slings[1]) {
            Ok(a) => a,
            Err(e) => {
                return Err(e);
            },
        };
        let cos1 = cos_mdeg(angle1);
        let cos2 = cos_mdeg(angle2);
        if cos1 < 1 || cos2 < 1 {
            return Err(RiggingError::InvalidConfiguration(String::from_str(
                "Sling does not point upward",
            )));
        }
        proof {
            assert(0 <= (load.weight_kg as int) * (r2 as int) <= 4_000_000_000_000_000_000)
                by (nonlinear_arith)
                requires 0 <= load.weight_kg <= 1_000_000_000 && 0 <= r2 <= 4_000_000_000;
            assert(0 <= (load.weight_kg as int) * (r1 as int) <= 4_000_000_000_000_000_000)
                by (nonlinear_arith)
                requires 0 <= load.weight_kg <= 1_000_000_000 && 0 <= r1 <= 4_000_000_000;
            vstd::arithmetic::div_mod::lemma_div_pos_is_pos(
                (load.weight_kg as int) * (r2 as int), r1 as int + r2 as int);
            vstd::arithmetic::div_mod::lemma_div_pos_is_pos(
                (load.weight_kg as int) * (r1 as int), r1 as int + r2 as int);
            assert((load.weight_kg as int) * (r2 as int) <= (load.weight_kg as int) * (
            r1 as int + r2 as int)) by (nonlinear_arith)
                requires 0 <= load.weight_kg && 0 <= r1 && 0 <= r2;
            assert((load.weight_kg as int) * (r1 as int) <= (load.weight_kg as int) * (
            r1 as int + r2 as int)) by (nonlinear_arith)
                requires 0 <= load.weight_kg && 0 <= r1 && 0 <= r2;
            vstd::arithmetic::div_mod::lemma_div_is_ordered(
                (load.weight_kg as int) * (r2 as int),
                (load.weight_kg as int) * (r1 as int + r2 as int), r1 as int + r2 as int);
            vstd::arithmetic::div_mod::lemma_div_is_ordered(
                (load.weight_kg as int) * (r1 as int),
                (load.weight_kg as int) * (r1 as int + r2 as int), r1 as int + r2 as int);
            vstd::arithmetic::div_mod::lemma_div_multiples_vanish(
                load.weight_kg as int, r1 as int + r2 as int);
        }
        let t1: i128 = div_floor_i128((load.weight_kg as i128) * (r2 as i128),
            (r1 + r2) as i128);
        let t2: i128 = div_floor_i128((load.weight_kg as i128) * (r1 as i128),
            (r1 + r2) as i128);
        proof {
            assert(0 <= (t1 as int) * 1_000_000 <= 1_000_000_000_000_000)
                by (nonlinear_arith)
                requires 0 <= t1 <= 1_000_000_000;
            assert(0 <= (t2 as int) * 1_000_000 <= 1_000_000_000_000_000)
                by (nonlinear_arith)
                requires 0 <= t2 <= 1_000_000_000;
            vstd::arithmetic::div_mod::lemma_div_pos_is_pos((t1 as int) * 1_000_000, cos1 as int);
            vstd::arithmetic::div_mod::lemma_div_pos_is_pos((t2 as int) * 1_000_000, cos2 as int);
            vstd::arithmetic::div_mod::lemma_div_is_ordered((t1 as int) * 1_000_000,
                1_000_000_000_000_000, cos1 as int);
            vstd::arithmetic::div_mod::lemma_div_is_ordered((t2 as int) * 1_000_000,
                1_000_000_000_000_000, cos2 as int);
            vstd::arithmetic::div_mod::lemma_div_is_ordered_by_denominator(
                1_000_000_000_000_000, 1, cos1 as int);
            vstd::arithmetic::div_mod::lemma_div_is_ordered_by_denominator(
                1_000_000_000_000_000, 1, cos2 as int);
            vstd::arithmetic::div_mod::lemma_div_basics(1_000_000_000_000_000);
        }
        let a1: i64 = div_floor_i128(t1 * 1_000_000, cos1 as i128) as i64;
        let a2: i64 = div_floor_i128(t2 * 1_000_000, cos2 as i128) as i64;
        let mut out: Vec<i64> = Vec::new();
        out.push(a1);
        out.push(a2);
        Ok(out)
    }

    /// Solve a three-sling lift exactly: the unit sling directions form a
    /// 3-by-3 matrix, and the vertical load force is resolved along them by
    /// Cramer's rule.  Fails if and only if a sling is shorter than a
    /// millimetre or the directions are coplanar or collinear (the scaled
    /// determinant falls below [`DET_EPS_SCALED`]).  Solved forces are
    /// reported by magnitude, so a sign-flipped (pushing) solution comes
    /// back as a positive tension; no separate negative-tension rejection
    /// exists, since taking magnitudes first would leave it nothing to
    /// reject.
    pub fn solve_three_sling_system(load: &Load, slings: &Vec<Sling>) -> (r: Result<
        Vec<i64>,
        RiggingError,
    >)
        requires
            load_ok(*load),
            slings@.len() == 3,
            forall|i: int| 0 <= i < 3 ==> sling_ok(#[trigger] slings@[i]),
        ensures
            ({
                let v1 = spec_sling_vec(slings@[0]);
                let v2 = spec_sling_vec(slings@[1]);
                let v3 = spec_sling_vec(slings@[2]);
                let u1 = spec_triple(spec_scaled_unit(v1));
                let u2 = spec_triple(spec_scaled_unit(v2));
                let u3 = spec_triple(spec_scaled_unit(v3));
                let det = spec_det3(u1, u2, u3);
                let m = load.weight_kg * 9810;
                let lengths_ok = spec_norm_sq(v1) >= 1 && spec_norm_sq(v2) >= 1 && spec_norm_sq(
                    v3) >= 1;
                &&& (r is Ok <==> lengths_ok && abs_int(det) >= DET_EPS_SCALED as int)
                &&& (r is Err ==> r->Err_0 is InvalidConfiguration)
                &&& (r is Ok ==> r->Ok_0@.len() == 3
                    && r->Ok_0@[0] == spec_newtons_to_kg(spec_cramer_quotient(
                        spec_det3(u2, u3, (0, 0, m)), det))
                    && r->Ok_0@[1] == spec_newtons_to_kg(spec_cramer_quotient(
                        spec_det3(u3, u1, (0, 0, m)), det))
                    && r->Ok_0@[2] == spec_newtons_to_kg(spec_cramer_quotient(
                        spec_det3(u1, u2, (0, 0, m)), det))
                    && (forall|i: int| 0 <= i < 3 ==> 0 <= #[trigger] r->Ok_0@[i]
                        <= 500_000_000_000_000_000))
            }),
    {
        let v1 = point_sub(&slings[0].hook_point, &slings[0].attachment_point);
        let v2 = point_sub(&slings[1].hook_point, &slings[1].attachment_point);
        let v3 = point_sub(&slings[2].hook_point, &slings[2].attachment_point);
        if norm_mm(&v1) < 1 || norm_mm(&v2) < 1 || norm_mm(&v3) < 1 {
            proof {
                lemma_norm_small(v1);
                lemma_norm_small(v2);
                lemma_norm_small(v3);
            }
            return Err(RiggingError::InvalidConfiguration(String::from_str(
                "Sling length too short",
            )));
        }
        proof {
            lemma_norm_small(v1);
            lemma_norm_small(v2);
            lemma_norm_small(v3);
        }
        let u1 = scaled_unit(&v1);
        let u2 = scaled_unit(&v2);
        let u3 = scaled_unit(&v3);
        let det: i128 = det_units(&u1, &u2, &u3);
        let det_abs: i128 = if det >= 0 {
            det
        } else {
            -det
        };
        if det_abs < DET_EPS_SCALED {
            return Err(RiggingError::InvalidConfiguration(String::from_str(
                "Slings are coplanar or collinear - cannot solve",
            )));
        }
        let m: i128 = (load.weight_kg as i128) * 9810;
        let d1 = det_with_vertical(&u2, &u3, m, Ghost(9_810_000_000_000int));
        let d2 = det_with_vertical(&u3, &u1, m, Ghost(9_810_000_000_000int));
        let d3 = det_with_vertical(&u1, &u2, m, Ghost(9_810_000_000_000int));
        let q1 = cramer_div(d1, det, Ghost(58_997_790_860_000_000_000int));
        let q2 = cramer_div(d2, det, Ghost(58_997_790_860_000_000_000int));
        let q3 = cramer_div(d3, det, Ghost(58_997_790_860_000_000_000int));
        let t1 = newtons_to_kg(q1);
        let t2 = newtons_to_kg(q2);
        let t3 = newtons_to_kg(q3);
        let mut out: Vec<i64> = Vec::new();
        out.push(t1);
        out.push(t2);
        out.push(t3);
        Ok(out)
    }
}

/// A norm below one means a squared norm of zero, and the other way round.
proof fn lemma_norm_small(v: Vec3Mm)
    requires
        vec_in_bounds_wide(v),
    ensures
        spec_norm(v) >= 1 <==> spec_norm_sq(v) >= 1,
        spec_norm_sq(v) >= 0,
{
    assert(v.x * v.x >= 0 && v.y * v.y >= 0 && v.z * v.z >= 0) by (nonlinear_arith);
    crate::num::lemma_isqrt_is_isqrt(spec_norm_sq(v));
    let n = spec_norm(v);
    assert(spec_norm_sq(v) >= 1 ==> n >= 1) by (nonlinear_arith)
        requires (n + 1) * (n + 1) > spec_norm_sq(v) && n >= 0;
    assert(n >= 1 ==> spec_norm_sq(v) >= 1) by (nonlinear_arith)
        requires n * n <= spec_norm_sq(v);
}

/// The sum of reported tensions over a prefix of the analyses.
pub open spec fn spec_tension_sum(ts: Seq<SlingTensionAnalysis>, n: int) -> int
    decreases n,
{
    if n <= 0 {
        0
    } else {
        spec_tension_sum(ts, n - 1) + ts[n - 1].tension_kg
    }
}

/// The tension-weighted moment of the attachment points about the origin,
/// over a prefix: the X components.
pub open spec fn spec_moment_x(sl: Seq<Sling>, ts: Seq<SlingTensionAnalysis>, n: int) -> int
    decreases n,
{
    if n <= 0 {
        0
    } else {
        spec_moment_x(sl, ts, n - 1) + sl[n - 1].attachment_point.x * ts[n - 1].tension_kg
    }
}

/// The Y components of the tension-weighted moment.
pub open spec fn spec_moment_y(sl: Seq<Sling>, ts: Seq<SlingTensionAnalysis>, n: int) -> int
    decreases n,
{
    if n <= 0 {
        0
    } else {
        spec_moment_y(sl, ts, n - 1) + sl[n - 1].attachment_point.y * ts[n - 1].tension_kg
    }
}

/// The Z components of the tension-weighted moment.
pub open spec fn spec_moment_z(sl: Seq<Sling>, ts: Seq<SlingTensionAnalysis>, n: int) -> int
    decreases n,
{
    if n <= 0 {
        0
    } else {
        spec_moment_z(sl, ts, n - 1) + sl[n - 1].attachment_point.z * ts[n - 1].tension_kg
    }
}

/// A coordinate clamped into the engine's coordinate range.
pub open spec fn spec_clamp_coord(x: int) -> int {
    if x > 1_000_000_000 {
        1_000_000_000
    } else if x < -1_000_000_000 {
        -1_000_000_000
    } else {
        x
    }
}

/// The offset of the tension-weighted centroid of the attachment points
/// from the load's centre of gravity.
pub open spec fn spec_balance_offset(
    load: Load,
    sl: Seq<Sling>,
    ts: Seq<SlingTensionAnalysis>,
) -> Vec3Mm {
    let n = sl.len() as int;
    let total = spec_tension_sum(ts, n);
    Vec3Mm {
        x: (spec_clamp_coord(spec_moment_x(sl, ts, n) / total) - load.center_of_gravity.x) as i64,
        y: (spec_clamp_coord(spec_moment_y(sl, ts, n) / total) - load.center_of_gravity.y) as i64,
        z: (spec_clamp_coord(spec_moment_z(sl, ts, n) / total) - load.center_of_gravity.z) as i64,
    }
}

/// What the balance check must say: with no positive total tension the load
/// counts as unbalanced with no tilt report; otherwise balanced exactly when
/// the centroid offset is under 50 mm, and an unbalanced load reports the
/// rise-over-run tilt of each horizontal offset against the load height.
pub open spec fn spec_balance_matches(
    load: Load,
    sl: Seq<Sling>,
    ts: Seq<SlingTensionAnalysis>,
    r: (bool, Option<Vec3Mm>),
) -> bool {
    let total = spec_tension_sum(ts, ts.len() as int);
    &&& (total <= 0 ==> !r.0 && r.1 is None)
    &&& (total > 0 ==> ({
        let off = spec_balance_offset(load, sl, ts);
        &&& (r.0 <==> spec_norm(off) < 50)
        &&& (r.0 ==> r.1 is None)
        &&& (!r.0 ==> r.1 is Some && r.1->0 == (Vec3Mm {
            x: crate::kinematics::spec_rise_run_angle(off.x as int,
                load.dimensions.z as int) as i64,
            y: crate::kinematics::spec_rise_run_angle(off.y as int,
                load.dimensions.z as int) as i64,
            z: 0,
        }))
    }))
}

/// The advisory warnings one sling's report contributes, in order: a
/// shallow-angle warning past 60 degrees, a high-utilization warning past
/// 90 percent, an overload warning past 100 percent.
pub open spec fn spec_warnings_for(t: SlingTensionAnalysis, i: int) -> Seq<RiggingWarning> {
    let a: Seq<RiggingWarning> = if t.angle_from_vertical_mdeg > 60_000 {
        seq![RiggingWarning::ShallowAngle { sling_index: i as usize, angle_mdeg: t.angle_from_vertical_mdeg }]
    } else {
        Seq::empty()
    };
    let b: Seq<RiggingWarning> = if t.utilization_pm > 900 {
        seq![RiggingWarning::HighUtilization { sling_index: i as usize, utilization_pm: t.utilization_pm }]
    } else {
        Seq::empty()
    };
    let c: Seq<RiggingWarning> = if !t.is_safe {
        seq![RiggingWarning::Overloaded { sling_index: i as usize, utilization_pm: t.utilization_pm }]
    } else {
        Seq::empty()
    };
    a + b + c
}

/// The per-sling warnings of a prefix of the reports, in order.
pub open spec fn spec_sling_warnings(ts: Seq<SlingTensionAnalysis>, n: int) -> Seq<RiggingWarning>
    decreases n,
{
    if n <= 0 {
        Seq::empty()
    } else {
        spec_sling_warnings(ts, n - 1) + spec_warnings_for(ts[n - 1], n - 1)
    }
}

/// The capacity-over-tension ratio of one sling report, in parts per
/// thousand.
pub open spec fn spec_sf_pm(t: SlingTensionAnalysis) -> int
    recommends
        t.tension_kg > 0,
{
    t.capacity_kg * 1000 / (t.tension_kg as int)
}

/// What a safety summary must say of the reports it was computed from: the
/// hook-to-centre-of-gravity offset, safety exactly at a 5:1 factor, the
/// largest representable factor and no critical sling when nothing carries
/// tension, and otherwise the factor of the first sling attaining the
/// minimum ratio, named as critical.
pub open spec fn spec_safety_matches(
    load: Load,
    ts: Seq<SlingTensionAnalysis>,
    hook: Point3Mm,
    r: SafetyAnalysis,
) -> bool {
    &&& r.cog_offset_from_hook_mm == spec_sub(hook, load.center_of_gravity)
    &&& (r.is_configuration_safe <==> r.overall_safety_factor_pm >= 5000)
    &&& ((forall|j: int| 0 <= j < ts.len() ==> (#[trigger] ts[j]).tension_kg <= 0)
        ==> r.overall_safety_factor_pm == i64::MAX && r.critical_sling_id is None)
    &&& ((exists|j: int| 0 <= j < ts.len() && (#[trigger] ts[j]).tension_kg > 0) ==> exists|
        k: int,
    |
        0 <= k < ts.len() && (#[trigger] ts[k]).tension_kg > 0 && r.overall_safety_factor_pm
            == spec_sf_pm(ts[k]) && (forall|j: int| 0 <= j < ts.len() && (
        #[trigger] ts[j]).tension_kg > 0 ==> spec_sf_pm(ts[j]) >= r.overall_safety_factor_pm) && (
        forall|j: int| 0 <= j < k && (#[trigger] ts[j]).tension_kg > 0 ==> spec_sf_pm(ts[j])
            > r.overall_safety_factor_pm) && r.critical_sling_id is Some
            && r.critical_sling_id->0@ == ts[k].sling_id@)
}

/// Every advisory warning of a rigging run, in order: the per-sling
/// warnings, a low-safety-factor warning below 5:1, and a
/// centre-of-gravity-offset warning past 0.2 m.
pub open spec fn spec_all_warnings(
    ts: Seq<SlingTensionAnalysis>,
    safety: SafetyAnalysis,
) -> Seq<RiggingWarning> {
    let base = spec_sling_warnings(ts, ts.len() as int);
    let with_sf: Seq<RiggingWarning> = if safety.overall_safety_factor_pm < 5000 {
        base.push(RiggingWarning::LowSafetyFactor { factor_pm: safety.overall_safety_factor_pm })
    } else {
        base
    };
    let off = spec_norm(safety.cog_offset_from_hook_mm);
    if off > 200 {
        with_sf.push(RiggingWarning::CogOffset { offset_mm: off as i64 })
    } else {
        with_sf
    }
}

impl RiggingCalculator {
    /// Generate the advisory warnings of a run; the result equals
    /// [`spec_all_warnings`].
    pub fn generate_warnings(
        tensions: &Vec<SlingTensionAnalysis>,
        safety: &SafetyAnalysis,
    ) -> (w: Vec<RiggingWarning>)
        requires
            crate::geom::vec_in_bounds_wide(safety.cog_offset_from_hook_mm),
        ensures
            w@ == spec_all_warnings(tensions@, *safety),
    {
        let n = tensions.len();
        let mut w: Vec<RiggingWarning> = Vec::new();
        let mut i: usize = 0;
        while i < n
            invariant
                0 <= i <= n,
                n == tensions@.len(),
                w@ == spec_sling_warnings(tensions@, i as int),
            decreases n - i,
        {
            let t = &tensions[i];
            let ghost before = w@;
            if t.angle_from_vertical_mdeg > 60_000 {
                w.push(RiggingWarning::ShallowAngle {
                    sling_index: i,
                    angle_mdeg: t.angle_from_vertical_mdeg,
                });
            }
            if t.utilization_pm > 900 {
                w.push(RiggingWarning::HighUtilization {
                    sling_index: i,
                    utilization_pm: t.utilization_pm,
                });
            }
            if !t.is_safe {
                w.push(RiggingWarning::Overloaded {
                    sling_index: i,
                    utilization_pm: t.utilization_pm,
                });
            }
            proof {
                assert(w@ =~= before + spec_warnings_for(tensions@[i as int], i as int));
                assert(w@ =~= spec_sling_warnings(tensions@, i as int + 1));
            }
            i = i + 1;
        }
        if safety.overall_safety_factor_pm < 5000 {
            w.push(RiggingWarning::LowSafetyFactor {
                factor_pm: safety.overall_safety_factor_pm,
            });
        }
        let off = norm_mm(&safety.cog_offset_from_hook_mm);
        if off > 200 {
            w.push(RiggingWarning::CogOffset { offset_mm: off });
        }
        proof {
            assert(w@ =~= spec_all_warnings(tensions@, *safety));
        }
        w
    }

    /// Safety summary of the solved tensions: the smallest
    /// capacity-over-tension ratio, the first sling attaining it, whether
    /// the configuration clears the required 5:1 factor, and the hook's
    /// offset from the centre of gravity.  Slings with no positive tension
    /// impose no bound; the result satisfies [`spec_safety_matches`].
    pub fn analyze_safety(
        load: &Load,
        tensions: &Vec<SlingTensionAnalysis>,
        hook_position: Point3Mm,
    ) -> (r: SafetyAnalysis)
        requires
            load_ok(*load),
            point_in_bounds(hook_position),
            forall|i: int| 0 <= i < tensions@.len() ==> 0 <= (#[trigger] tensions@[i]).tension_kg
                && -2_000_000_000 <= tensions@[i].capacity_kg <= 2_000_000_000,
        ensures
            spec_safety_matches(*load, tensions@, hook_position, r),
    {
        let n = tensions.len();
        let mut min_sf: i64 = i64::MAX;
        let mut critical: Option<String> = None;
        let ghost mut best_idx: int = 0;
        let mut i: usize = 0;
        while i < n
            invariant
                0 <= i <= n,
                n == tensions@.len(),
                forall|j: int| 0 <= j < tensions@.len() ==> 0 <= (
                #[trigger] tensions@[j]).tension_kg && -2_000_000_000 <= tensions@[j].capacity_kg
                    <= 2_000_000_000,
                critical is None ==> min_sf == i64::MAX && (forall|j: int| 0 <= j < i
                    ==> (#[trigger] tensions@[j]).tension_kg <= 0),
                critical is Some ==> 0 <= best_idx < i && tensions@[best_idx].tension_kg > 0
                    && min_sf == spec_sf_pm(tensions@[best_idx]) && critical->0@
                    == tensions@[best_idx].sling_id@ && -2_000_000_000_001 <= min_sf
                    <= 2_000_000_000_001,
                critical is Some ==> (forall|j: int| 0 <= j < i
                    && (#[trigger] tensions@[j]).tension_kg > 0 ==> spec_sf_pm(tensions@[j])
                    >= min_sf),
                critical is Some ==> (forall|j: int| 0 <= j < best_idx
                    && (#[trigger] tensions@[j]).tension_kg > 0 ==> spec_sf_pm(tensions@[j])
                    > min_sf),
            decreases n - i,
        {
            let t = &tensions[i];
            if t.tension_kg > 0 {
                proof {
                    assert(-2_000_000_000_000 <= (t.capacity_kg as int) * 1000
                        <= 2_000_000_000_000) by (nonlinear_arith)
                        requires -2_000_000_000 <= t.capacity_kg <= 2_000_000_000;
                    crate::num::lemma_quotient_bound((t.capacity_kg as int) * 1000,
                        t.tension_kg as int, 2_000_000_000_000, 1);
                }
                let sf: i64 = div_floor_i128((t.capacity_kg as i128) * 1000,
                    t.tension_kg as i128) as i64;
                if sf < min_sf {
                    min_sf = sf;
                    critical = Some(clone_string(&t.sling_id));
                    proof {
                        best_idx = i as int;
                    }
                }
            }
            i = i + 1;
        }
        let is_safe = min_sf >= 5000;
        let cog_offset = point_sub(&hook_position, &load.center_of_gravity);
        SafetyAnalysis {
            overall_safety_factor_pm: min_sf,
            critical_sling_id: critical,
            is_configuration_safe: is_safe,
            cog_offset_from_hook_mm: cog_offset,
        }
    }

    /// Estimate a sling's own weight in grams from its material and size;
    /// the result equals [`spec_sling_weight_g`].
    pub fn estimate_sling_weight_g(spec: &SlingSpec) -> (r: i64)
        requires
            sling_spec_ok(*spec),
        ensures
            r == spec_sling_weight_g(*spec),
            0 <= r <= 1_000_000_000_000,
    {
        match &spec.material {
            SlingMaterial::WireRope { .. } => {
                let dia = match spec.diameter_mm {
                    Some(d) => d,
                    None => 0,
                };
                proof {
                    assert(0 <= (spec.length_mm as int) * (dia as int) <= 1_000_000_000_000)
                        by (nonlinear_arith)
                        requires 0 <= spec.length_mm <= 1_000_000 && 0 <= dia <= 1_000_000;
                }
                ((spec.length_mm as i128) * (dia as i128) / 2) as i64
            },
            SlingMaterial::Chain { .. } => {
                let dia = match spec.diameter_mm {
                    Some(d) => d,
                    None => 0,
                };
                proof {
                    assert(0 <= (spec.length_mm as int) * (dia as int) <= 1_000_000_000_000)
                        by (nonlinear_arith)
                        requires 0 <= spec.length_mm <= 1_000_000 && 0 <= dia <= 1_000_000;
                }
                ((spec.length_mm as i128) * (dia as i128)) as i64
            },
            SlingMaterial::Synthetic { .. } => {
                let width = match spec.width_mm {
                    Some(w) => w,
                    None => 0,
                };
                proof {
                    assert(0 <= (spec.length_mm as int) * (width as int) <= 1_000_000_000_000)
                        by (nonlinear_arith)
                        requires 0 <= spec.length_mm <= 1_000_000 && 0 <= width <= 1_000_000;
                }
                ((spec.length_mm as i128) * (width as i128) / 100) as i64
            },
        }
    }

    /// Total weight of the rigging itself in kilograms: the estimated sling
    /// weights plus the hardware weights; the result equals
    /// [`spec_rigging_weight_kg`].
    pub fn calculate_rigging_weight_kg(
        slings: &Vec<Sling>,
        hardware: &Vec<RiggingHardware>,
    ) -> (r: i64)
        requires
            forall|i: int| 0 <= i < slings@.len() ==> sling_ok(#[trigger] slings@[i]),
            slings@.len() <= 6,
            forall|i: int| 0 <= i < hardware@.len() ==> 0 <= (#[trigger] hardware@[i]).weight_kg
                <= MAX_LOAD_KG,
            hardware@.len() <= 1000,
        ensures
            r == spec_rigging_weight_kg(slings@, hardware@),
            0 <= r,
    {
        let mut total_g: i64 = 0;
        let mut i: usize = 0;
        let ns = slings.len();
        while i < ns
            invariant
                0 <= i <= ns,
                ns == slings@.len(),
                ns <= 6,
                forall|j: int| 0 <= j < slings@.len() ==> sling_ok(#[trigger] slings@[j]),
                total_g == spec_slings_weight_g(slings@, i as int),
                0 <= total_g <= (i as int) * 1_000_000_000_000,
            decreases ns - i,
        {
            let w = Self::estimate_sling_weight_g(&slings[i].spec);
            proof {
                assert((i as int) * 1_000_000_000_000 + 1_000_000_000_000 == (i as int + 1)
                    * 1_000_000_000_000) by (nonlinear_arith);
                assert((i as int + 1) * 1_000_000_000_000 <= 6_000_000_000_000)
                    by (nonlinear_arith)
                    requires i as int + 1 <= 6;
            }
            total_g = total_g + w;
            i = i + 1;
        }
        proof {
            assert((ns as int) * 1_000_000_000_000 <= 6_000_000_000_000) by (nonlinear_arith)
                requires ns <= 6;
        }
        let mut total_kg: i64 = total_g / 1000;
        proof {
            assert(total_g as int / 1000 <= 6_000_000_000_000) by {
                vstd::arithmetic::div_mod::lemma_div_is_ordered_by_denominator(
                    total_g as int, 1, 1000);
                vstd::arithmetic::div_mod::lemma_div_basics(total_g as int);
            };
        }
        let nh = hardware.len();
        let mut j: usize = 0;
        while j < nh
            invariant
                0 <= j <= nh,
                nh == hardware@.len(),
                nh <= 1000,
                forall|k: int| 0 <= k < hardware@.len() ==> 0 <= (
                #[trigger] hardware@[k]).weight_kg <= MAX_LOAD_KG,
                total_kg == spec_slings_weight_g(slings@, slings@.len() as int) / 1000
                    + spec_hardware_weight_kg(hardware@, j as int),
                0 <= total_kg <= 6_000_000_000_000 + (j as int) * 1_000_000_000,
            decreases nh - j,
        {
            proof {
                assert((j as int) * 1_000_000_000 + 1_000_000_000 == (j as int + 1)
                    * 1_000_000_000) by (nonlinear_arith);
                assert((j as int + 1) * 1_000_000_000 <= 1_000_000_000_000) by (nonlinear_arith)
                    requires j as int + 1 <= 1000;
            }
            total_kg = total_kg + hardware[j].weight_kg;
            j = j + 1;
        }
        proof {
            assert((nh as int) * 1_000_000_000 <= 1_000_000_000_000) by (nonlinear_arith)
                requires nh <= 1000;
        }
        total_kg
    }

    /// Apply dynamic effects to a static tension: impact loading multiplies
    /// by 1.25, and wind beyond 5 m/s multiplies by one plus the wind speed
    /// over fifty; the factors compose multiplicatively.
    pub fn apply_dynamic_factors(static_tension_kg: i64, factors: DynamicFactors) -> (r: i64)
        requires
            0 <= static_tension_kg <= MAX_LOAD_KG,
            0 <= factors.wind_speed_mms <= 1_000_000,
        ensures
            ({
                let after_impact = if factors.impact_loading {
                    static_tension_kg * 1250 / 1000
                } else {
                    static_tension_kg as int
                };
                let wind_factor_pm = 1000 + factors.wind_speed_mms / 50;
                r == if factors.wind_speed_mms > 5000 {
                    after_impact * wind_factor_pm / 1000
                } else {
                    after_impact
                }
            }),
            0 <= r,
    {
        let after_impact: i64 = if factors.impact_loading {
            proof {
                assert(0 <= (static_tension_kg as int) * 1250 <= 1_250_000_000_000)
                    by (nonlinear_arith)
                    requires 0 <= static_tension_kg <= 1_000_000_000;
                vstd::arithmetic::div_mod::lemma_div_pos_is_pos(
                    (static_tension_kg as int) * 1250, 1000);
                vstd::arithmetic::div_mod::lemma_div_is_ordered(
                    (static_tension_kg as int) * 1250, 1_250_000_000_000, 1000);
                vstd::arithmetic::div_mod::lemma_div_multiples_vanish(1_250_000_000, 1000);
            }
            div_floor_i128((static_tension_kg as i128) * 1250, 1000) as i64
        } else {
            static_tension_kg
        };
        if factors.wind_speed_mms > 5000 {
            let wind_factor_pm: i64 = 1000 + factors.wind_speed_mms / 50;
            proof {
                assert(0 <= (after_impact as int) * (wind_factor_pm as int)
                    <= 26_250_000_000_000_000) by (nonlinear_arith)
                    requires 0 <= after_impact <= 1_250_000_000 && 0 <= wind_factor_pm <= 21_000;
                vstd::arithmetic::div_mod::lemma_div_pos_is_pos(
                    (after_impact as int) * (wind_factor_pm as int), 1000);
            }
            div_floor_i128((after_impact as i128) * (wind_factor_pm as i128), 1000) as i64
        } else {
            after_impact
        }
    }

    /// The bending of a spreader beam carrying the load at its middle,
    /// treated as a simply supported beam: the peak moment is the total
    /// force times the beam length over eight, the peak shear half the
    /// force, and the required section modulus follows for a 250 N/mm^2
    /// steel.
    pub fn analyze_spreader_beam(
        beam_length_mm: i64,
        beam_weight_kg: i64,
        _lift_point_spacing_mm: i64,
        load_kg: i64,
    ) -> (r: SpreaderBeamAnalysis)
        requires
            0 <= beam_length_mm <= 1_000_000,
            0 <= beam_weight_kg <= MAX_LOAD_KG,
            0 <= load_kg <= MAX_LOAD_KG,
        ensures
            r.max_shear_force_n == (load_kg + beam_weight_kg) * 981 / 100 / 2,
            r.max_bending_moment_nmm == (load_kg + beam_weight_kg) * 981 / 100
                * beam_length_mm / 8,
            r.required_section_modulus_mm3 == r.max_bending_moment_nmm / 250,
    {
        proof {
            assert(0 <= ((load_kg + beam_weight_kg) as int) * 981 <= 1_962_000_000_000)
                by (nonlinear_arith)
                requires 0 <= load_kg + beam_weight_kg <= 2_000_000_000;
            vstd::arithmetic::div_mod::lemma_div_pos_is_pos(
                ((load_kg + beam_weight_kg) as int) * 981, 100);
            vstd::arithmetic::div_mod::lemma_div_is_ordered(
                ((load_kg + beam_weight_kg) as int) * 981, 1_962_000_000_000, 100);
            vstd::arithmetic::div_mod::lemma_div_multiples_vanish(19_620_000_000, 100);
        }
        let total_n: i64 = div_floor_i128(((load_kg + beam_weight_kg) as i128) * 981, 100) as i64;
        proof {
            assert(0 <= (total_n as int) * (beam_length_mm as int) <= 19_620_000_000_000_000_000)
                by (nonlinear_arith)
                requires 0 <= total_n <= 19_620_000_000 && 0 <= beam_length_mm <= 1_000_000;
            vstd::arithmetic::div_mod::lemma_div_pos_is_pos(
                (total_n as int) * (beam_length_mm as int), 8);
            vstd::arithmetic::div_mod::lemma_div_is_ordered(
                (total_n as int) * (beam_length_mm as int), 19_620_000_000_000_000_000, 8);
            vstd::arithmetic::div_mod::lemma_div_multiples_vanish(2_452_500_000_000_000_000, 8);
        }
        let moment_nmm: i64 = div_floor_i128((total_n as i128) * (beam_length_mm as i128),
            8) as i64;
        proof {
            vstd::arithmetic::div_mod::lemma_div_pos_is_pos(moment_nmm as int, 250);
            vstd::arithmetic::div_mod::lemma_div_is_ordered_by_denominator(moment_nmm as int, 1,
                250);
            vstd::arithmetic::div_mod::lemma_div_basics(moment_nmm as int);
            vstd::arithmetic::div_mod::lemma_div_pos_is_pos(total_n as int, 2);
            vstd::arithmetic::div_mod::lemma_div_is_ordered_by_denominator(total_n as int, 1, 2);
        }
        let shear_n: i64 = div_floor_i128(total_n as i128, 2) as i64;
        let modulus: i64 = div_floor_i128(moment_nmm as i128, 250) as i64;
        SpreaderBeamAnalysis {
            max_bending_moment_nmm: moment_nmm,
            max_shear_force_n: shear_n,
            required_section_modulus_mm3: modulus,
        }
    }
}

/// Bending summary of a spreader beam.
#[derive(Clone, Copy, Debug, PartialEq, Eq, Structural)]
pub struct SpreaderBeamAnalysis {
    pub max_bending_moment_nmm: i64,
    pub max_shear_force_n: i64,
    pub required_section_modulus_mm3: i64,
}

/// Helper functions for rigging design.
pub struct RiggingDesigner;

impl RiggingDesigner {
    /// Suggest pick points for a load: two points along the long axis at
    /// four tenths of the length from the centre of gravity, or four corner
    /// points at thirty-five hundredths of the length and width; other
    /// counts get no suggestion.
    pub fn suggest_pick_points(load: &Load, num_points: usize) -> (r: Vec<Point3Mm>)
        requires
            load_ok(*load),
        ensures
            num_points == 2 ==> r@.len() == 2,
            num_points == 4 ==> r@.len() == 4,
            num_points != 2 && num_points != 4 ==> r@.len() == 0,
            num_points == 2 ==> ({
                let cog = load.center_of_gravity;
                let off = load.dimensions.x * 4 / 10;
                let top = cog.z + load.dimensions.z / 2;
                r@[0] == (Point3Mm { x: (cog.x - off) as i64, y: cog.y, z: top as i64 })
                    && r@[1] == (Point3Mm { x: (cog.x + off) as i64, y: cog.y, z: top as i64 })
            }),
            num_points == 4 ==> ({
                let cog = load.center_of_gravity;
                let xo = load.dimensions.x * 35 / 100;
                let yo = load.dimensions.y * 35 / 100;
                let top = cog.z + load.dimensions.z / 2;
                r@[0] == (Point3Mm { x: (cog.x + xo) as i64, y: (cog.y + yo) as i64, z: top as i64 })
                    && r@[1] == (Point3Mm { x: (cog.x + xo) as i64, y: (cog.y - yo) as i64, z: top as i64 })
                    && r@[2] == (Point3Mm { x: (cog.x - xo) as i64, y: (cog.y + yo) as i64, z: top as i64 })
                    && r@[3] == (Point3Mm { x: (cog.x - xo) as i64, y: (cog.y - yo) as i64, z: top as i64 })
            }),
    {
        let cog = load.center_of_gravity;
        let mut r: Vec<Point3Mm> = Vec::new();
        proof {
            vstd::arithmetic::div_mod::lemma_div_pos_is_pos(load.dimensions.z as int, 2);
            vstd::arithmetic::div_mod::lemma_div_is_ordered_by_denominator(
                load.dimensions.z as int, 1, 2);
            vstd::arithmetic::div_mod::lemma_div_basics(load.dimensions.z as int);
        }
        let top: i64 = cog.z + ((load.dimensions.z as u64) / 2) as i64;
        if num_points == 2 {
            proof {
                assert(0 <= (load.dimensions.x as int) * 4 <= 4_000_000_000) by (nonlinear_arith)
                    requires 0 <= load.dimensions.x <= 1_000_000_000;
                vstd::arithmetic::div_mod::lemma_div_pos_is_pos(
                    (load.dimensions.x as int) * 4, 10);
                vstd::arithmetic::div_mod::lemma_div_is_ordered(
                    (load.dimensions.x as int) * 4, 4_000_000_000, 10);
                vstd::arithmetic::div_mod::lemma_div_multiples_vanish(400_000_000, 10);
            }
            let off: i64 = div_floor_i128((load.dimensions.x as i128) * 4, 10) as i64;
            r.push(Point3Mm { x: cog.x - off, y: cog.y, z: top });
            r.push(Point3Mm { x: cog.x + off, y: cog.y, z: top });
        } else if num_points == 4 {
            proof {
                assert(0 <= (load.dimensions.x as int) * 35 <= 35_000_000_000)
                    by (nonlinear_arith)
                    requires 0 <= load.dimensions.x <= 1_000_000_000;
                assert(0 <= (load.dimensions.y as int) * 35 <= 35_000_000_000)
                    by (nonlinear_arith)
                    requires 0 <= load.dimensions.y <= 1_000_000_000;
                vstd::arithmetic::div_mod::lemma_div_pos_is_pos(
                    (load.dimensions.x as int) * 35, 100);
                vstd::arithmetic::div_mod::lemma_div_pos_is_pos(
                    (load.dimensions.y as int) * 35, 100);
                vstd::arithmetic::div_mod::lemma_div_is_ordered(
                    (load.dimensions.x as int) * 35, 35_000_000_000, 100);
                vstd::arithmetic::div_mod::lemma_div_is_ordered(
                    (load.dimensions.y as int) * 35, 35_000_000_000, 100);
                vstd::arithmetic::div_mod::lemma_div_multiples_vanish(350_000_000, 100);
            }
            let xo: i64 = div_floor_i128((load.dimensions.x as i128) * 35, 100) as i64;
            let yo: i64 = div_floor_i128((load.dimensions.y as i128) * 35, 100) as i64;
            r.push(Point3Mm { x: cog.x + xo, y: cog.y + yo, z: top });
            r.push(Point3Mm { x: cog.x + xo, y: cog.y - yo, z: top });
            r.push(Point3Mm { x: cog.x - xo, y: cog.y + yo, z: top });
            r.push(Point3Mm { x: cog.x - xo, y: cog.y - yo, z: top });
        }
        r
    }

    /// The rated capacity each of `num_slings` slings needs: the load share
    /// per sling, divided by the cosine of the worst angle and the hitch
    /// factor, with a twenty percent margin on top.  A count of zero needs
    /// no capacity, and an angle at or past horizontal cannot carry load at
    /// all.
    pub fn required_sling_capacity(
        load_weight_kg: i64,
        num_slings: usize,
        max_angle_from_vertical_mdeg: i64,
        hitch_type: HitchType,
    ) -> (r: i64)
        requires
            0 <= load_weight_kg <= MAX_LOAD_KG,
            0 <= max_angle_from_vertical_mdeg <= 180_000,
        ensures
            num_slings == 0 ==> r == 0,
            num_slings > 0 && spec_cos_mdeg(max_angle_from_vertical_mdeg as int) < 1 ==> r
                == i64::MAX,
            num_slings > 0 && spec_cos_mdeg(max_angle_from_vertical_mdeg as int) >= 1 ==> r
                == load_weight_kg as int / (num_slings as int) * 1_000_000 / spec_cos_mdeg(
                max_angle_from_vertical_mdeg as int) * 1000 / spec_hitch_factor_pm(hitch_type)
                * 12 / 10,
            0 <= r,
    {
        if num_slings == 0 {
            return 0;
        }
        let cosv = cos_mdeg(max_angle_from_vertical_mdeg);
        if cosv < 1 {
            return i64::MAX;
        }
        proof {
            vstd::arithmetic::div_mod::lemma_div_pos_is_pos(load_weight_kg as int,
                num_slings as int);
            vstd::arithmetic::div_mod::lemma_div_is_ordered_by_denominator(load_weight_kg as int,
                1, num_slings as int);
            vstd::arithmetic::div_mod::lemma_div_basics(load_weight_kg as int);
        }
        let per: i64 = div_floor_i128(load_weight_kg as i128, num_slings as i128) as i64;
        proof {
            assert(0 <= (per as int) * 1_000_000 <= 1_000_000_000_000_000) by (nonlinear_arith)
                requires 0 <= per <= 1_000_000_000;
            vstd::arithmetic::div_mod::lemma_div_pos_is_pos((per as int) * 1_000_000, cosv as int);
            vstd::arithmetic::div_mod::lemma_div_is_ordered((per as int) * 1_000_000,
                1_000_000_000_000_000, cosv as int);
            vstd::arithmetic::div_mod::lemma_div_is_ordered_by_denominator(
                1_000_000_000_000_000, 1, cosv as int);
            vstd::arithmetic::div_mod::lemma_div_basics(1_000_000_000_000_000);
        }
        let base: i64 = div_floor_i128((per as i128) * 1_000_000, cosv as i128) as i64;
        proof {
            assert(0 <= (base as int) * 1000 <= 1_000_000_000_000_000_000) by (nonlinear_arith)
                requires 0 <= base <= 1_000_000_000_000_000;
            vstd::arithmetic::div_mod::lemma_div_pos_is_pos((base as int) * 1000, 750);
            vstd::arithmetic::div_mod::lemma_div_is_ordered_by_denominator((base as int) * 1000,
                750, spec_hitch_factor_pm(hitch_type));
            vstd::arithmetic::div_mod::lemma_div_is_ordered((base as int) * 1000,
                1_000_000_000_000_000_000, 750);
        }
        let with_hitch: i64 = div_floor_i128((base as i128) * 1000,
            hitch_type.capacity_factor_pm() as i128) as i64;
        proof {
            assert((1_000_000_000_000_000_000int / 750) * 12 <= 16_000_000_000_000_000_000
                && 0 <= (with_hitch as int) * 12 <= 16_000_000_000_000_000_000)
                by (nonlinear_arith)
                requires 0 <= with_hitch <= 1_333_333_333_333_333_333;
            vstd::arithmetic::div_mod::lemma_div_pos_is_pos((with_hitch as int) * 12, 10);
        }
        div_floor_i128((with_hitch as i128) * 12, 10) as i64
    }
}

/// The weight estimate of one sling in grams: wire rope weighs half a gram
/// per millimetre of length and diameter, chain a full gram, and synthetic
/// webbing a hundredth of a gram per millimetre of length and width.
pub open spec fn spec_sling_weight_g(s: SlingSpec) -> int {
    match s.material {
        SlingMaterial::WireRope { .. } => s.length_mm * spec_opt_mm(s.diameter_mm) / 2,
        SlingMaterial::Chain { .. } => s.length_mm * spec_opt_mm(s.diameter_mm),
        SlingMaterial::Synthetic { .. } => s.length_mm * spec_opt_mm(s.width_mm) / 100,
    }
}

/// An optional dimension, absent meaning zero.
pub open spec fn spec_opt_mm(d: Option<i64>) -> int {
    match d {
        Some(v) => v as int,
        None => 0,
    }
}

/// The summed weight estimates of a prefix of the slings, in grams.
pub open spec fn spec_slings_weight_g(s: Seq<Sling>, n: int) -> int
    decreases n,
{
    if n <= 0 {
        0
    } else {
        spec_slings_weight_g(s, n - 1) + spec_sling_weight_g(s[n - 1].spec)
    }
}

/// The summed hardware weights of a prefix, in kilograms.
pub open spec fn spec_hardware_weight_kg(h: Seq<RiggingHardware>, n: int) -> int
    decreases n,
{
    if n <= 0 {
        0
    } else {
        spec_hardware_weight_kg(h, n - 1) + h[n - 1].weight_kg
    }
}

/// The total rigging weight in kilograms: the sling estimates rounded down
/// to whole kilograms, plus the hardware weights.
pub open spec fn spec_rigging_weight_kg(s: Seq<Sling>, h: Seq<RiggingHardware>) -> int {
    spec_slings_weight_g(s, s.len() as int) / 1000 + spec_hardware_weight_kg(h, h.len() as int)
}


/// The scaled unit direction of a sling.
pub open spec fn spec_sling_unit(s: Sling) -> Vec3Mm {
    spec_scaled_unit(spec_sling_vec(s))
}

/// Every sling of the prefix is at least a millimetre long.
pub open spec fn spec_lengths_ok(sl: Seq<Sling>) -> bool {
    forall|i: int| 0 <= i < sl.len() ==> spec_norm_sq(spec_sling_vec(#[trigger] sl[i])) >= 1
}

/// An entry of the normal system: the sum over the slings of one product of
/// unit direction components (X by X).
pub open spec fn spec_gram_xx(sl: Seq<Sling>, n: int) -> int
    decreases n,
{
    if n <= 0 {
        0
    } else {
        spec_gram_xx(sl, n - 1) + spec_sling_unit(sl[n - 1]).x * spec_sling_unit(sl[n - 1]).x
    }
}

/// The X-by-Y entry of the normal system.
pub open spec fn spec_gram_xy(sl: Seq<Sling>, n: int) -> int
    decreases n,
{
    if n <= 0 {
        0
    } else {
        spec_gram_xy(sl, n - 1) + spec_sling_unit(sl[n - 1]).x * spec_sling_unit(sl[n - 1]).y
    }
}

/// The X-by-Z entry of the normal system.
pub open spec fn spec_gram_xz(sl: Seq<Sling>, n: int) -> int
    decreases n,
{
    if n <= 0 {
        0
    } else {
        spec_gram_xz(sl, n - 1) + spec_sling_unit(sl[n - 1]).x * spec_sling_unit(sl[n - 1]).z
    }
}

/// The Y-by-Y entry of the normal system.
pub open spec fn spec_gram_yy(sl: Seq<Sling>, n: int) -> int
    decreases n,
{
    if n <= 0 {
        0
    } else {
        spec_gram_yy(sl, n - 1) + spec_sling_unit(sl[n - 1]).y * spec_sling_unit(sl[n - 1]).y
    }
}

/// The Y-by-Z entry of the normal system.
pub open spec fn spec_gram_yz(sl: Seq<Sling>, n: int) -> int
    decreases n,
{
    if n <= 0 {
        0
    } else {
        spec_gram_yz(sl, n - 1) + spec_sling_unit(sl[n - 1]).y * spec_sling_unit(sl[n - 1]).z
    }
}

/// The Z-by-Z entry of the normal system.
pub open spec fn spec_gram_zz(sl: Seq<Sling>, n: int) -> int
    decreases n,
{
    if n <= 0 {
        0
    } else {
        spec_gram_zz(sl, n - 1) + spec_sling_unit(sl[n - 1]).z * spec_sling_unit(sl[n - 1]).z
    }
}

/// The determinant of the normal system of the slings' unit directions.
pub open spec fn spec_multi_det(sl: Seq<Sling>) -> int {
    let n = sl.len() as int;
    let m00 = spec_gram_xx(sl, n);
    let m01 = spec_gram_xy(sl, n);
    let m02 = spec_gram_xz(sl, n);
    let m11 = spec_gram_yy(sl, n);
    let m12 = spec_gram_yz(sl, n);
    let m22 = spec_gram_zz(sl, n);
    m00 * (m11 * m22 - m12 * m12) + m01 * (m02 * m12 - m01 * m22) + m02 * (m01 * m12 - m02 * m11)
}

/// The first entry of the adjugate column that meets the vertical force.
pub open spec fn spec_multi_c02(sl: Seq<Sling>) -> int {
    let n = sl.len() as int;
    spec_gram_xy(sl, n) * spec_gram_yz(sl, n) - spec_gram_xz(sl, n) * spec_gram_yy(sl, n)
}

/// The second entry of the adjugate column that meets the vertical force.
pub open spec fn spec_multi_c12(sl: Seq<Sling>) -> int {
    let n = sl.len() as int;
    spec_gram_xz(sl, n) * spec_gram_xy(sl, n) - spec_gram_xx(sl, n) * spec_gram_yz(sl, n)
}

/// The third entry of the adjugate column that meets the vertical force.
pub open spec fn spec_multi_c22(sl: Seq<Sling>) -> int {
    let n = sl.len() as int;
    spec_gram_xx(sl, n) * spec_gram_yy(sl, n) - spec_gram_xy(sl, n) * spec_gram_xy(sl, n)
}


/// The trace of the normal system: the summed squared lengths of the scaled
/// unit directions.
pub open spec fn spec_multi_tr(sl: Seq<Sling>) -> int {
    let n = sl.len() as int;
    spec_gram_xx(sl, n) + spec_gram_yy(sl, n) + spec_gram_zz(sl, n)
}

/// The second elementary symmetric function of the normal system's
/// eigenvalues: the sum of its principal 2-by-2 minors.
pub open spec fn spec_multi_e2(sl: Seq<Sling>) -> int {
    let n = sl.len() as int;
    let m00 = spec_gram_xx(sl, n);
    let m01 = spec_gram_xy(sl, n);
    let m02 = spec_gram_xz(sl, n);
    let m11 = spec_gram_yy(sl, n);
    let m12 = spec_gram_yz(sl, n);
    let m22 = spec_gram_zz(sl, n);
    (m00 * m11 - m01 * m01) + (m00 * m22 - m02 * m02) + (m11 * m22 - m12 * m12)
}

/// The vertical column of the squared normal system.
pub open spec fn spec_multi_m2_02(sl: Seq<Sling>) -> int {
    let n = sl.len() as int;
    spec_gram_xx(sl, n) * spec_gram_xz(sl, n) + spec_gram_xy(sl, n) * spec_gram_yz(sl, n)
        + spec_gram_xz(sl, n) * spec_gram_zz(sl, n)
}

/// The middle entry of the squared normal system's vertical column.
pub open spec fn spec_multi_m2_12(sl: Seq<Sling>) -> int {
    let n = sl.len() as int;
    spec_gram_xy(sl, n) * spec_gram_xz(sl, n) + spec_gram_yy(sl, n) * spec_gram_yz(sl, n)
        + spec_gram_yz(sl, n) * spec_gram_zz(sl, n)
}

/// The last entry of the squared normal system's vertical column.
pub open spec fn spec_multi_m2_22(sl: Seq<Sling>) -> int {
    let n = sl.len() as int;
    spec_gram_xz(sl, n) * spec_gram_xz(sl, n) + spec_gram_yz(sl, n) * spec_gram_yz(sl, n)
        + spec_gram_zz(sl, n) * spec_gram_zz(sl, n)
}

/// The rank-two pseudo-inverse polynomial applied to the vertical column:
/// for a positive-semidefinite normal system with two nonzero eigenvalues,
/// the pseudo-inverse equals `(tr^2 M - tr M^2 - e2 M) / e2^2`; these are
/// that numerator's vertical entries.
pub open spec fn spec_rank2_p02(sl: Seq<Sling>) -> int {
    let n = sl.len() as int;
    let s = spec_multi_tr(sl);
    s * s * spec_gram_xz(sl, n) - s * spec_multi_m2_02(sl) - spec_multi_e2(sl) * spec_gram_xz(
        sl, n)
}

/// The middle rank-two pseudo-inverse numerator entry.
pub open spec fn spec_rank2_p12(sl: Seq<Sling>) -> int {
    let n = sl.len() as int;
    let s = spec_multi_tr(sl);
    s * s * spec_gram_yz(sl, n) - s * spec_multi_m2_12(sl) - spec_multi_e2(sl) * spec_gram_yz(
        sl, n)
}

/// The last rank-two pseudo-inverse numerator entry.
pub open spec fn spec_rank2_p22(sl: Seq<Sling>) -> int {
    let n = sl.len() as int;
    let s = spec_multi_tr(sl);
    s * s * spec_gram_zz(sl, n) - s * spec_multi_m2_22(sl) - spec_multi_e2(sl) * spec_gram_zz(
        sl, n)
}

/// The Cramer numerator of one sling against the rank-two pseudo-inverse.
pub open spec fn spec_multi_num2(sl: Seq<Sling>, w: int, i: int) -> int {
    let wg = w * 981;
    let u = spec_sling_unit(sl[i]);
    u.x * (spec_rank2_p02(sl) * wg) + u.y * (spec_rank2_p12(sl) * wg) + u.z * (spec_rank2_p22(sl)
        * wg)
}

/// The Cramer numerator of one sling against the rank-one pseudo-inverse,
/// which is the normal system itself over the squared trace.
pub open spec fn spec_multi_num1(sl: Seq<Sling>, w: int, i: int) -> int {
    let n = sl.len() as int;
    let wg = w * 981;
    let u = spec_sling_unit(sl[i]);
    u.x * (spec_gram_xz(sl, n) * wg) + u.y * (spec_gram_yz(sl, n) * wg) + u.z * (spec_gram_zz(
        sl, n) * wg)
}

/// The least-squares tension of sling `i` in a four-to-six-sling lift, in
/// kilograms: the minimum-norm solution of the normal equations through the
/// pseudo-inverse, picked by the effective rank of the normal system — the
/// full Cramer solve when its determinant clears [`DET_EPS_MULTI`], the
/// rank-two polynomial when its second symmetric function clears
/// [`E2_EPS_MULTI`], and the rank-one scaling otherwise (four parallel
/// vertical slings land here and share the load evenly).
pub open spec fn spec_multi_tension(sl: Seq<Sling>, w: int, i: int) -> int {
    if abs_int(spec_multi_det(sl)) >= DET_EPS_MULTI as int {
        spec_newtons_to_kg(spec_cramer_quotient(10 * spec_multi_num(sl, w, i),
            spec_multi_det(sl)))
    } else if spec_multi_e2(sl) >= E2_EPS_MULTI as int {
        spec_newtons_to_kg(spec_cramer_quotient(10 * spec_multi_num2(sl, w, i),
            spec_multi_e2(sl) * spec_multi_e2(sl)))
    } else {
        spec_newtons_to_kg(spec_cramer_quotient(10 * spec_multi_num1(sl, w, i),
            spec_multi_tr(sl) * spec_multi_tr(sl)))
    }
}

/// The normal system is usable when any of its rank tests clears its
/// threshold; only a vanishing trace (no usable direction at all) defeats
/// the solve.
pub open spec fn spec_multi_solvable(sl: Seq<Sling>) -> bool {
    abs_int(spec_multi_det(sl)) >= DET_EPS_MULTI as int || spec_multi_e2(sl)
        >= E2_EPS_MULTI as int || spec_multi_tr(sl) >= TR_EPS_MULTI as int
}

impl RiggingCalculator {
    /// Solve a four-to-six-sling lift, which is statically indeterminate:
    /// the load is distributed in the minimum-norm least-squares sense — the
    /// fairest redundant distribution — through the pseudo-inverse of the
    /// unit directions' normal system.  The pseudo-inverse is computed
    /// exactly by effective rank: a full Cramer solve, the rank-two
    /// polynomial, or the rank-one scaling (four parallel vertical slings
    /// land there and share the load evenly).  Fails with
    /// `InvalidConfiguration` if and only if a sling is shorter than a
    /// millimetre, and with `MathError` if and only if no rank test clears
    /// its threshold; each tension equals [`spec_multi_tension`].
    pub fn solve_multi_sling_system(load: &Load, slings: &Vec<Sling>) -> (r: Result<
        Vec<i64>,
        RiggingError,
    >)
        requires
            load_ok(*load),
            4 <= slings@.len() <= 6,
            forall|i: int| 0 <= i < slings@.len() ==> sling_ok(#[trigger] slings@[i]),
        ensures
            r is Ok <==> spec_lengths_ok(slings@) && spec_multi_solvable(slings@),
            r is Err ==> r->Err_0 is InvalidConfiguration || r->Err_0 is MathError,
            r is Err && !spec_lengths_ok(slings@) ==> r->Err_0 is InvalidConfiguration,
            r is Err && spec_lengths_ok(slings@) ==> (r->Err_0 matches RiggingError::MathError(m)
                && m@ == "Least-squares solve failed"@),
            r is Ok ==> r->Ok_0@.len() == slings@.len() && (forall|i: int| 0 <= i
                < r->Ok_0@.len() ==> #[trigger] r->Ok_0@[i] == spec_multi_tension(slings@,
                load.weight_kg as int, i) && 0 <= r->Ok_0@[i] <= 500_000_000_000_000_000),
    {
        let n = slings.len();
        let mut units: Vec<Vec3Mm> = Vec::new();
        let mut i: usize = 0;
        while i < n
            invariant
                0 <= i <= n,
                n == slings@.len(),
                forall|j: int| 0 <= j < slings@.len() ==> sling_ok(#[trigger] slings@[j]),
                units@.len() == i,
                forall|j: int| 0 <= j < i ==> unit_bounded(#[trigger] units@[j]),
                forall|j: int| 0 <= j < i ==> #[trigger] units@[j] == spec_sling_unit(
                    slings@[j]),
                forall|j: int| 0 <= j < i ==> spec_norm_sq(spec_sling_vec(
                    #[trigger] slings@[j])) >= 1,
            decreases n - i,
        {
            let v = point_sub(&slings[i].hook_point, &slings[i].attachment_point);
            if norm_mm(&v) < 1 {
                proof {
                    lemma_norm_small(v);
                }
                return Err(RiggingError::InvalidConfiguration(String::from_str(
                    "Sling length too short",
                )));
            }
            proof {
                lemma_norm_small(v);
            }
            let u = scaled_unit(&v);
            units.push(u);
            i = i + 1;
        }
        // normal system: the symmetric matrix of direction dot products
        let mut m00: i64 = 0;
        let mut m01: i64 = 0;
        let mut m02: i64 = 0;
        let mut m11: i64 = 0;
        let mut m12: i64 = 0;
        let mut m22: i64 = 0;
        let mut j: usize = 0;
        while j < n
            invariant
                0 <= j <= n,
                n == units@.len(),
                n == slings@.len(),
                n <= 6,
                forall|k: int| 0 <= k < n ==> unit_bounded(#[trigger] units@[k]),
                forall|k: int| 0 <= k < n ==> #[trigger] units@[k] == spec_sling_unit(
                    slings@[k]),
                m00 == spec_gram_xx(slings@, j as int),
                m01 == spec_gram_xy(slings@, j as int),
                m02 == spec_gram_xz(slings@, j as int),
                m11 == spec_gram_yy(slings@, j as int),
                m12 == spec_gram_yz(slings@, j as int),
                m22 == spec_gram_zz(slings@, j as int),
                -6_012_006 <= m00 <= 6_012_006 && -6_012_006 <= m01 <= 6_012_006 && -6_012_006
                    <= m02 <= 6_012_006 && -6_012_006 <= m11 <= 6_012_006 && -6_012_006 <= m12
                    <= 6_012_006 && -6_012_006 <= m22 <= 6_012_006,
                abs_int(m00 as int) <= (j as int) * 1_002_001 && abs_int(m01 as int) <= (j as int)
                    * 1_002_001 && abs_int(m02 as int) <= (j as int) * 1_002_001 && abs_int(
                    m11 as int) <= (j as int) * 1_002_001 && abs_int(m12 as int) <= (j as int)
                    * 1_002_001 && abs_int(m22 as int) <= (j as int) * 1_002_001,
            decreases n - j,
        {
            let u = units[j];
            proof {
                assert(-1_002_001 <= (u.x as int) * (u.x as int) <= 1_002_001 && -1_002_001 <= (
                u.x as int) * (u.y as int) <= 1_002_001 && -1_002_001 <= (u.x as int) * (
                u.z as int) <= 1_002_001 && -1_002_001 <= (u.y as int) * (u.y as int) <= 1_002_001
                    && -1_002_001 <= (u.y as int) * (u.z as int) <= 1_002_001 && -1_002_001 <= (
                u.z as int) * (u.z as int) <= 1_002_001) by (nonlinear_arith)
                    requires
                        -1001 <= u.x <= 1001 && -1001 <= u.y <= 1001 && -1001 <= u.z <= 1001;
                assert((j as int) * 1_002_001 + 1_002_001 == (j as int + 1) * 1_002_001)
                    by (nonlinear_arith);
                assert((j as int + 1) * 1_002_001 <= 6_012_006) by (nonlinear_arith)
                    requires j as int + 1 <= 6;
            }
            m00 = m00 + u.x * u.x;
            m01 = m01 + u.x * u.y;
            m02 = m02 + u.x * u.z;
            m11 = m11 + u.y * u.y;
            m12 = m12 + u.y * u.z;
            m22 = m22 + u.z * u.z;
            j = j + 1;
        }
        // cofactors and invariants of the symmetric normal matrix
        proof {
            lemma_cofactor_bounds(m00 as int, m01 as int, m02 as int, m11 as int, m12 as int,
                m22 as int);
        }
        let c00: i128 = (m11 as i128) * (m22 as i128) - (m12 as i128) * (m12 as i128);
        let c01: i128 = (m02 as i128) * (m12 as i128) - (m01 as i128) * (m22 as i128);
        let c02: i128 = (m01 as i128) * (m12 as i128) - (m02 as i128) * (m11 as i128);
        let c11: i128 = (m00 as i128) * (m22 as i128) - (m02 as i128) * (m02 as i128);
        let c12: i128 = (m02 as i128) * (m01 as i128) - (m00 as i128) * (m12 as i128);
        let c22: i128 = (m00 as i128) * (m11 as i128) - (m01 as i128) * (m01 as i128);
        proof {
            assert(-500_000_000_000_000_000_000 <= (m00 as int) * (c00 as int)
                <= 500_000_000_000_000_000_000 && -500_000_000_000_000_000_000 <= (m01 as int) * (
            c01 as int) <= 500_000_000_000_000_000_000 && -500_000_000_000_000_000_000 <= (
            m02 as int) * (c02 as int) <= 500_000_000_000_000_000_000) by (nonlinear_arith)
                requires
                    -6_012_006 <= m00 <= 6_012_006 && -6_012_006 <= m01 <= 6_012_006 && -6_012_006
                        <= m02 <= 6_012_006 && -80_000_000_000_000 <= c00 <= 80_000_000_000_000
                        && -80_000_000_000_000 <= c01 <= 80_000_000_000_000
                        && -80_000_000_000_000 <= c02 <= 80_000_000_000_000;
        }
        let det: i128 = (m00 as i128) * c00 + (m01 as i128) * c01 + (m02 as i128) * c02;
        let e2: i128 = c22 + c11 + c00;
        let tr: i64 = m00 + m11 + m22;
        let wg: i128 = (load.weight_kg as i128) * 981;
        proof {
            assert(det == spec_multi_det(slings@));
            assert(c02 == spec_multi_c02(slings@));
            assert(c12 == spec_multi_c12(slings@));
            assert(c22 == spec_multi_c22(slings@));
            assert(e2 == spec_multi_e2(slings@));
            assert(tr == spec_multi_tr(slings@));
        }
        let det_abs: i128 = if det >= 0 {
            det
        } else {
            -det
        };
        if det_abs >= DET_EPS_MULTI {
            // full rank: Cramer against the adjugate column
            proof {
                lemma_multi_bounds(c02 as int, c12 as int, c22 as int, wg as int);
            }
            let out = cramer_column(&units, c02 * wg, c12 * wg, c22 * wg, det,
                Ghost(79_000_000_000_000_000_000_000_000int), Ghost(1_000_000_000_000int));
            return Ok(out);
        }
        if e2 >= E2_EPS_MULTI {
            // rank two: the pseudo-inverse polynomial over the squared
            // second symmetric function
            let s128: i128 = tr as i128;
            proof {
                lemma_rank2_bounds(m00 as int, m01 as int, m02 as int, m11 as int, m12 as int,
                    m22 as int, s128 as int, e2 as int);
            }
            let m2_02: i128 = (m00 as i128) * (m02 as i128) + (m01 as i128) * (m12 as i128) + (
            m02 as i128) * (m22 as i128);
            let m2_12: i128 = (m01 as i128) * (m02 as i128) + (m11 as i128) * (m12 as i128) + (
            m12 as i128) * (m22 as i128);
            let m2_22: i128 = (m02 as i128) * (m02 as i128) + (m12 as i128) * (m12 as i128) + (
            m22 as i128) * (m22 as i128);
            let p02: i128 = s128 * s128 * (m02 as i128) - s128 * m2_02 - e2 * (m02 as i128);
            let p12: i128 = s128 * s128 * (m12 as i128) - s128 * m2_12 - e2 * (m12 as i128);
            let p22: i128 = s128 * s128 * (m22 as i128) - s128 * m2_22 - e2 * (m22 as i128);
            proof {
                assert(p02 == spec_rank2_p02(slings@));
                assert(p12 == spec_rank2_p12(slings@));
                assert(p22 == spec_rank2_p22(slings@));
                lemma_rank2_y_bounds(p02 as int, p12 as int, p22 as int, wg as int);
                assert(1_000_000_000_000_000_000_000_000 <= e2 * e2
                    <= 60_000_000_000_000_000_000_000_000_000) by (nonlinear_arith)
                    requires 1_000_000_000_000 <= e2 <= 240_100_000_000_000;
            }
            let out = cramer_column(&units, p02 * wg, p12 * wg, p22 * wg, e2 * e2,
                Ghost(5_500_000_000_000_000_000_000_000_000_000_000int),
                Ghost(1_000_000_000_000_000_000_000_000int));
            return Ok(out);
        }
        if tr >= TR_EPS_MULTI {
            // rank one: the normal system itself over the squared trace
            proof {
                assert(-5_900_000_000_000_000_000 <= (m02 as int) * (wg as int)
                    <= 5_900_000_000_000_000_000 && -5_900_000_000_000_000_000 <= (m12 as int) * (
                wg as int) <= 5_900_000_000_000_000_000 && -5_900_000_000_000_000_000 <= (
                m22 as int) * (wg as int) <= 5_900_000_000_000_000_000) by (nonlinear_arith)
                    requires
                        -6_012_006 <= m02 <= 6_012_006 && -6_012_006 <= m12 <= 6_012_006
                            && -6_012_006 <= m22 <= 6_012_006 && 0 <= wg <= 981_000_000_000;
                assert(10_000_000_000 <= (tr as int) * (tr as int) <= 400_000_000_000_000)
                    by (nonlinear_arith)
                    requires 100_000 <= tr <= 18_100_000;
            }
            let out = cramer_column(&units, (m02 as i128) * wg, (m12 as i128) * wg,
                (m22 as i128) * wg, (tr as i128) * (tr as i128),
                Ghost(5_900_000_000_000_000_000int), Ghost(10_000_000_000int));
            return Ok(out);
        }
        Err(RiggingError::MathError(String::from_str("Least-squares solve failed")))
    }
}

/// The rank-two polynomial entries stay within 128-bit range.
proof fn lemma_rank2_bounds(
    m00: int, m01: int, m02: int, m11: int, m12: int, m22: int, s: int, e2: int,
)
    requires
        -6_012_006 <= m00 <= 6_012_006 && -6_012_006 <= m01 <= 6_012_006 && -6_012_006 <= m02
            <= 6_012_006 && -6_012_006 <= m11 <= 6_012_006 && -6_012_006 <= m12 <= 6_012_006
            && -6_012_006 <= m22 <= 6_012_006,
        s == m00 + m11 + m22,
        -240_100_000_000_000 <= e2 <= 240_100_000_000_000,
    ensures
        -37_000_000_000_000 <= m00 * m02 <= 37_000_000_000_000,
        -37_000_000_000_000 <= m01 * m12 <= 37_000_000_000_000,
        -37_000_000_000_000 <= m02 * m22 <= 37_000_000_000_000,
        -37_000_000_000_000 <= m01 * m02 <= 37_000_000_000_000,
        -37_000_000_000_000 <= m11 * m12 <= 37_000_000_000_000,
        -37_000_000_000_000 <= m12 * m22 <= 37_000_000_000_000,
        -37_000_000_000_000 <= m02 * m02 <= 37_000_000_000_000,
        -37_000_000_000_000 <= m12 * m12 <= 37_000_000_000_000,
        -37_000_000_000_000 <= m22 * m22 <= 37_000_000_000_000,
        0 <= s * s <= 330_000_000_000_000,
        -2_000_000_000_000_000_000_000 <= s * s * m02 <= 2_000_000_000_000_000_000_000,
        -2_000_000_000_000_000_000_000 <= s * s * m12 <= 2_000_000_000_000_000_000_000,
        -2_000_000_000_000_000_000_000 <= s * s * m22 <= 2_000_000_000_000_000_000_000,
        -2_100_000_000_000_000_000_000 <= s * (m00 * m02 + m01 * m12 + m02 * m22)
            <= 2_100_000_000_000_000_000_000,
        -2_100_000_000_000_000_000_000 <= s * (m01 * m02 + m11 * m12 + m12 * m22)
            <= 2_100_000_000_000_000_000_000,
        -2_100_000_000_000_000_000_000 <= s * (m02 * m02 + m12 * m12 + m22 * m22)
            <= 2_100_000_000_000_000_000_000,
        -1_450_000_000_000_000_000_000 <= e2 * m02 <= 1_450_000_000_000_000_000_000,
        -1_450_000_000_000_000_000_000 <= e2 * m12 <= 1_450_000_000_000_000_000_000,
        -1_450_000_000_000_000_000_000 <= e2 * m22 <= 1_450_000_000_000_000_000_000,
        -5_600_000_000_000_000_000_000 <= s * s * m02 - s * (m00 * m02 + m01 * m12 + m02 * m22)
            - e2 * m02 <= 5_600_000_000_000_000_000_000,
        -5_600_000_000_000_000_000_000 <= s * s * m12 - s * (m01 * m02 + m11 * m12 + m12 * m22)
            - e2 * m12 <= 5_600_000_000_000_000_000_000,
        -5_600_000_000_000_000_000_000 <= s * s * m22 - s * (m02 * m02 + m12 * m12 + m22 * m22)
            - e2 * m22 <= 5_600_000_000_000_000_000_000,
{
    assert(0 <= s * s <= 330_000_000_000_000) by (nonlinear_arith)
        requires -18_100_000 <= s <= 18_100_000;
    assert(-37_000_000_000_000 <= m00 * m02 <= 37_000_000_000_000 && -37_000_000_000_000 <= m01
        * m12 <= 37_000_000_000_000 && -37_000_000_000_000 <= m02 * m22 <= 37_000_000_000_000
        && -37_000_000_000_000 <= m01 * m02 <= 37_000_000_000_000 && -37_000_000_000_000 <= m11
        * m12 <= 37_000_000_000_000 && -37_000_000_000_000 <= m12 * m22 <= 37_000_000_000_000
        && -37_000_000_000_000 <= m02 * m02 <= 37_000_000_000_000 && -37_000_000_000_000 <= m12
        * m12 <= 37_000_000_000_000 && -37_000_000_000_000 <= m22 * m22 <= 37_000_000_000_000)
        by (nonlinear_arith)
        requires
            -6_012_006 <= m00 <= 6_012_006 && -6_012_006 <= m01 <= 6_012_006 && -6_012_006 <= m02
                <= 6_012_006 && -6_012_006 <= m11 <= 6_012_006 && -6_012_006 <= m12 <= 6_012_006
                && -6_012_006 <= m22 <= 6_012_006;
    let t02 = m00 * m02 + m01 * m12 + m02 * m22;
    let t12 = m01 * m02 + m11 * m12 + m12 * m22;
    let t22 = m02 * m02 + m12 * m12 + m22 * m22;
    assert(-2_000_000_000_000_000_000_000 <= s * (s * m02) <= 2_000_000_000_000_000_000_000
        && -2_000_000_000_000_000_000_000 <= s * (s * m12) <= 2_000_000_000_000_000_000_000
        && -2_000_000_000_000_000_000_000 <= s * (s * m22) <= 2_000_000_000_000_000_000_000
        && s * (s * m02) == s * s * m02 && s * (s * m12) == s * s * m12 && s * (s * m22) == s * s
        * m22) by (nonlinear_arith)
        requires
            -18_100_000 <= s <= 18_100_000 && -6_012_006 <= m02 <= 6_012_006 && -6_012_006 <= m12
                <= 6_012_006 && -6_012_006 <= m22 <= 6_012_006;
    assert(-2_100_000_000_000_000_000_000 <= s * t02 <= 2_100_000_000_000_000_000_000
        && -2_100_000_000_000_000_000_000 <= s * t12 <= 2_100_000_000_000_000_000_000
        && -2_100_000_000_000_000_000_000 <= s * t22 <= 2_100_000_000_000_000_000_000)
        by (nonlinear_arith)
        requires
            -18_100_000 <= s <= 18_100_000 && -111_000_000_000_000 <= t02 <= 111_000_000_000_000
                && -111_000_000_000_000 <= t12 <= 111_000_000_000_000 && -111_000_000_000_000
                <= t22 <= 111_000_000_000_000;
    assert(-1_450_000_000_000_000_000_000 <= e2 * m02 <= 1_450_000_000_000_000_000_000
        && -1_450_000_000_000_000_000_000 <= e2 * m12 <= 1_450_000_000_000_000_000_000
        && -1_450_000_000_000_000_000_000 <= e2 * m22 <= 1_450_000_000_000_000_000_000)
        by (nonlinear_arith)
        requires
            -240_100_000_000_000 <= e2 <= 240_100_000_000_000 && -6_012_006 <= m02 <= 6_012_006
                && -6_012_006 <= m12 <= 6_012_006 && -6_012_006 <= m22 <= 6_012_006;
}

/// The rank-two numerator column scaled by the load force stays within
/// 128-bit range.
proof fn lemma_rank2_y_bounds(p02: int, p12: int, p22: int, wg: int)
    requires
        -5_600_000_000_000_000_000_000 <= p02 <= 5_600_000_000_000_000_000_000,
        -5_600_000_000_000_000_000_000 <= p12 <= 5_600_000_000_000_000_000_000,
        -5_600_000_000_000_000_000_000 <= p22 <= 5_600_000_000_000_000_000_000,
        0 <= wg <= 981_000_000_000,
    ensures
        -5_500_000_000_000_000_000_000_000_000_000_000 <= p02 * wg
            <= 5_500_000_000_000_000_000_000_000_000_000_000,
        -5_500_000_000_000_000_000_000_000_000_000_000 <= p12 * wg
            <= 5_500_000_000_000_000_000_000_000_000_000_000,
        -5_500_000_000_000_000_000_000_000_000_000_000 <= p22 * wg
            <= 5_500_000_000_000_000_000_000_000_000_000_000,
{
    assert(-5_500_000_000_000_000_000_000_000_000_000_000 <= p02 * wg
        <= 5_500_000_000_000_000_000_000_000_000_000_000
        && -5_500_000_000_000_000_000_000_000_000_000_000 <= p12 * wg
        <= 5_500_000_000_000_000_000_000_000_000_000_000
        && -5_500_000_000_000_000_000_000_000_000_000_000 <= p22 * wg
        <= 5_500_000_000_000_000_000_000_000_000_000_000) by (nonlinear_arith)
        requires
            -5_600_000_000_000_000_000_000 <= p02 <= 5_600_000_000_000_000_000_000
                && -5_600_000_000_000_000_000_000 <= p12 <= 5_600_000_000_000_000_000_000
                && -5_600_000_000_000_000_000_000 <= p22 <= 5_600_000_000_000_000_000_000 && 0
                <= wg <= 981_000_000_000;
}

/// Solve one Cramer column: each sling's tension is its unit direction
/// dotted with the column, scaled by ten, over the divisor, converted to
/// kilograms by magnitude.
fn cramer_column(
    units: &Vec<Vec3Mm>,
    y0: i128,
    y1: i128,
    y2: i128,
    d: i128,
    Ghost(my): Ghost<int>,
    Ghost(md): Ghost<int>,
) -> (out: Vec<i64>)
    requires
        forall|p: int| 0 <= p < units@.len() ==> unit_bounded(#[trigger] units@[p]),
        abs_int(y0 as int) <= my && abs_int(y1 as int) <= my && abs_int(y2 as int) <= my,
        0 <= my,
        abs_int(d as int) >= md,
        1000 <= md,
        abs_int(d as int) <= 100_000_000_000_000_000_000_000_000_000,
        30030 * my <= 166_000_000_000_000_000_000_000_000_000_000_000_000,
        30030 * my <= md * 3_000_000_000_000_000_000,
    ensures
        out@.len() == units@.len(),
        forall|i: int| 0 <= i < out@.len() ==> #[trigger] out@[i] == spec_newtons_to_kg(
            spec_cramer_quotient(
                10 * (units@[i].x * (y0 as int) + units@[i].y * (y1 as int) + units@[i].z * (
                y2 as int)),
                d as int,
            )) && 0 <= out@[i] <= 500_000_000_000_000_000,
{
    let n = units.len();
    let mut out: Vec<i64> = Vec::new();
    let mut k: usize = 0;
    while k < n
        invariant
            0 <= k <= n,
            n == units@.len(),
            forall|p: int| 0 <= p < units@.len() ==> unit_bounded(#[trigger] units@[p]),
            abs_int(y0 as int) <= my && abs_int(y1 as int) <= my && abs_int(y2 as int) <= my,
            0 <= my,
            abs_int(d as int) >= md,
            1000 <= md,
            abs_int(d as int) <= 100_000_000_000_000_000_000_000_000_000,
            30030 * my <= 166_000_000_000_000_000_000_000_000_000_000_000_000,
            30030 * my <= md * 3_000_000_000_000_000_000,
            out@.len() == k,
            forall|i: int| 0 <= i < k ==> #[trigger] out@[i] == spec_newtons_to_kg(
                spec_cramer_quotient(
                    10 * (units@[i].x * (y0 as int) + units@[i].y * (y1 as int) + units@[i].z * (
                    y2 as int)),
                    d as int,
                )) && 0 <= out@[i] <= 500_000_000_000_000_000,
        decreases n - k,
    {
        let u = units[k];
        proof {
            lemma_dot_bound_g(u.x as int, u.y as int, u.z as int, y0 as int, y1 as int,
                y2 as int, my);
        }
        let num: i128 = (u.x as i128) * y0 + (u.y as i128) * y1 + (u.z as i128) * y2;
        let q: i128 = cramer_div_g(num * 10, d, Ghost(30030 * my), Ghost(md));
        let t = newtons_to_kg_clamped(q);
        out.push(t);
        k = k + 1;
    }
    out
}

/// A dot product of a unit direction with a bounded column stays within
/// 128-bit range, an order of magnitude to spare.
proof fn lemma_dot_bound_g(ux: int, uy: int, uz: int, y0: int, y1: int, y2: int, my: int)
    requires
        -1001 <= ux <= 1001 && -1001 <= uy <= 1001 && -1001 <= uz <= 1001,
        abs_int(y0) <= my && abs_int(y1) <= my && abs_int(y2) <= my,
        0 <= my,
        30030 * my <= 166_000_000_000_000_000_000_000_000_000_000_000_000,
    ensures
        abs_int(ux * y0 + uy * y1 + uz * y2) * 10 <= 30030 * my,
        abs_int(10 * (ux * y0 + uy * y1 + uz * y2)) <= 30030 * my,
        -1001 * my <= ux * y0 <= 1001 * my,
        -1001 * my <= uy * y1 <= 1001 * my,
        -1001 * my <= uz * y2 <= 1001 * my,
{
    assert(-(1001 * my) <= ux * y0 <= 1001 * my && -(1001 * my) <= uy * y1 <= 1001 * my && -(
    1001 * my) <= uz * y2 <= 1001 * my) by (nonlinear_arith)
        requires
            -1001 <= ux <= 1001 && -1001 <= uy <= 1001 && -1001 <= uz <= 1001 && -my <= y0 <= my
                && -my <= y1 <= my && -my <= y2 <= my && 0 <= my;
    assert(-(30030 * my) <= 10 * (ux * y0 + uy * y1 + uz * y2) <= 30030 * my)
        by (nonlinear_arith)
        requires
            -(1001 * my) <= ux * y0 <= 1001 * my && -(1001 * my) <= uy * y1 <= 1001 * my && -(
            1001 * my) <= uz * y2 <= 1001 * my && 0 <= my;
}

/// Divide a Cramer numerator by a rank-test divisor of either sign.
fn cramer_div_g(num: i128, d: i128, Ghost(mn): Ghost<int>, Ghost(md): Ghost<int>) -> (r: i128)
    requires
        abs_int(num as int) <= mn,
        0 <= mn <= 166_000_000_000_000_000_000_000_000_000_000_000_000,
        abs_int(d as int) >= md,
        1000 <= md,
        abs_int(d as int) <= 100_000_000_000_000_000_000_000_000_000,
        mn <= md * 3_000_000_000_000_000_000,
    ensures
        r == spec_cramer_quotient(num as int, d as int),
        abs_int(r as int) <= 3_000_000_000_000_000_001,
{
    proof {
        vstd::arithmetic::div_mod::lemma_fundamental_div_mod(mn, md);
        vstd::arithmetic::div_mod::lemma_mod_bound(mn, md);
        vstd::arithmetic::div_mod::lemma_div_pos_is_pos(mn, md);
        assert(mn / md <= 3_000_000_000_000_000_000) by (nonlinear_arith)
            requires
                mn == md * (mn / md) + mn % md && 0 <= mn % md && 1000 <= md && mn <= md
                    * 3_000_000_000_000_000_000 && mn / md >= 0;
    }
    if d > 0 {
        proof {
            crate::num::lemma_quotient_bound(num as int, d as int, mn, md);
            vstd::arithmetic::div_mod::lemma_div_is_ordered_by_denominator(mn, md, d as int);
        }
        div_floor_i128(num, d)
    } else {
        proof {
            crate::num::lemma_quotient_bound(-(num as int), -(d as int), mn, md);
            vstd::arithmetic::div_mod::lemma_div_is_ordered_by_denominator(mn, md, -(d as int));
        }
        div_floor_i128(-num, -d)
    }
}

/// Cofactor products of a bounded symmetric 3-by-3 matrix stay within
/// 128-bit range, along with the determinant built from them.
proof fn lemma_cofactor_bounds(m00: int, m01: int, m02: int, m11: int, m12: int, m22: int)
    requires
        -6_012_006 <= m00 <= 6_012_006 && -6_012_006 <= m01 <= 6_012_006 && -6_012_006 <= m02
            <= 6_012_006 && -6_012_006 <= m11 <= 6_012_006 && -6_012_006 <= m12 <= 6_012_006
            && -6_012_006 <= m22 <= 6_012_006,
    ensures
        -40_000_000_000_000 <= m11 * m22 <= 40_000_000_000_000,
        -40_000_000_000_000 <= m12 * m12 <= 40_000_000_000_000,
        -40_000_000_000_000 <= m02 * m12 <= 40_000_000_000_000,
        -40_000_000_000_000 <= m01 * m22 <= 40_000_000_000_000,
        -40_000_000_000_000 <= m01 * m12 <= 40_000_000_000_000,
        -40_000_000_000_000 <= m02 * m11 <= 40_000_000_000_000,
        -40_000_000_000_000 <= m00 * m22 <= 40_000_000_000_000,
        -40_000_000_000_000 <= m02 * m02 <= 40_000_000_000_000,
        -40_000_000_000_000 <= m02 * m01 <= 40_000_000_000_000,
        -40_000_000_000_000 <= m00 * m12 <= 40_000_000_000_000,
        -40_000_000_000_000 <= m00 * m11 <= 40_000_000_000_000,
        -40_000_000_000_000 <= m01 * m01 <= 40_000_000_000_000,
        -80_000_000_000_000 <= m11 * m22 - m12 * m12 <= 80_000_000_000_000,
        -80_000_000_000_000 <= m02 * m12 - m01 * m22 <= 80_000_000_000_000,
        -80_000_000_000_000 <= m01 * m12 - m02 * m11 <= 80_000_000_000_000,
        -80_000_000_000_000 <= m00 * m22 - m02 * m02 <= 80_000_000_000_000,
        -80_000_000_000_000 <= m02 * m01 - m00 * m12 <= 80_000_000_000_000,
        -80_000_000_000_000 <= m00 * m11 - m01 * m01 <= 80_000_000_000_000,
        -1_500_000_000_000_000_000_000 <= m00 * (m11 * m22 - m12 * m12) + m01 * (m02 * m12 - m01
            * m22) + m02 * (m01 * m12 - m02 * m11) <= 1_500_000_000_000_000_000_000,
{
    assert(-40_000_000_000_000 <= m11 * m22 <= 40_000_000_000_000 && -40_000_000_000_000 <= m12
        * m12 <= 40_000_000_000_000 && -40_000_000_000_000 <= m02 * m12 <= 40_000_000_000_000
        && -40_000_000_000_000 <= m01 * m22 <= 40_000_000_000_000 && -40_000_000_000_000 <= m01
        * m12 <= 40_000_000_000_000 && -40_000_000_000_000 <= m02 * m11 <= 40_000_000_000_000
        && -40_000_000_000_000 <= m00 * m22 <= 40_000_000_000_000 && -40_000_000_000_000 <= m02
        * m02 <= 40_000_000_000_000 && -40_000_000_000_000 <= m02 * m01 <= 40_000_000_000_000
        && -40_000_000_000_000 <= m00 * m12 <= 40_000_000_000_000 && -40_000_000_000_000 <= m00
        * m11 <= 40_000_000_000_000 && -40_000_000_000_000 <= m01 * m01 <= 40_000_000_000_000)
        by (nonlinear_arith)
        requires
            -6_012_006 <= m00 <= 6_012_006 && -6_012_006 <= m01 <= 6_012_006 && -6_012_006 <= m02
                <= 6_012_006 && -6_012_006 <= m11 <= 6_012_006 && -6_012_006 <= m12 <= 6_012_006
                && -6_012_006 <= m22 <= 6_012_006;
    assert(-80_000_000_000_000 <= m11 * m22 - m12 * m12 <= 80_000_000_000_000
        && -80_000_000_000_000 <= m02 * m12 - m01 * m22 <= 80_000_000_000_000
        && -80_000_000_000_000 <= m01 * m12 - m02 * m11 <= 80_000_000_000_000
        && -80_000_000_000_000 <= m00 * m22 - m02 * m02 <= 80_000_000_000_000
        && -80_000_000_000_000 <= m02 * m01 - m00 * m12 <= 80_000_000_000_000
        && -80_000_000_000_000 <= m00 * m11 - m01 * m01 <= 80_000_000_000_000)
        by (nonlinear_arith)
        requires
            -6_012_006 <= m00 <= 6_012_006 && -6_012_006 <= m01 <= 6_012_006 && -6_012_006 <= m02
                <= 6_012_006 && -6_012_006 <= m11 <= 6_012_006 && -6_012_006 <= m12 <= 6_012_006
                && -6_012_006 <= m22 <= 6_012_006;
    assert(-500_000_000_000_000_000_000 <= m00 * (m11 * m22 - m12 * m12)
        <= 500_000_000_000_000_000_000) by (nonlinear_arith)
        requires
            -6_012_006 <= m00 <= 6_012_006 && -80_000_000_000_000 <= m11 * m22 - m12 * m12
                <= 80_000_000_000_000;
    assert(-500_000_000_000_000_000_000 <= m01 * (m02 * m12 - m01 * m22)
        <= 500_000_000_000_000_000_000) by (nonlinear_arith)
        requires
            -6_012_006 <= m01 <= 6_012_006 && -80_000_000_000_000 <= m02 * m12 - m01 * m22
                <= 80_000_000_000_000;
    assert(-500_000_000_000_000_000_000 <= m02 * (m01 * m12 - m02 * m11)
        <= 500_000_000_000_000_000_000) by (nonlinear_arith)
        requires
            -6_012_006 <= m02 <= 6_012_006 && -80_000_000_000_000 <= m01 * m12 - m02 * m11
                <= 80_000_000_000_000;
}

/// The adjugate column scaled by the load force stays within 128-bit range.
proof fn lemma_multi_bounds(c02: int, c12: int, c22: int, wg: int)
    requires
        -80_000_000_000_000 <= c02 <= 80_000_000_000_000,
        -80_000_000_000_000 <= c12 <= 80_000_000_000_000,
        -80_000_000_000_000 <= c22 <= 80_000_000_000_000,
        0 <= wg <= 981_000_000_000,
    ensures
        -79_000_000_000_000_000_000_000_000 <= c02 * wg <= 79_000_000_000_000_000_000_000_000,
        -79_000_000_000_000_000_000_000_000 <= c12 * wg <= 79_000_000_000_000_000_000_000_000,
        -79_000_000_000_000_000_000_000_000 <= c22 * wg <= 79_000_000_000_000_000_000_000_000,
{
    assert(-79_000_000_000_000_000_000_000_000 <= c02 * wg <= 79_000_000_000_000_000_000_000_000
        && -79_000_000_000_000_000_000_000_000 <= c12 * wg
        <= 79_000_000_000_000_000_000_000_000 && -79_000_000_000_000_000_000_000_000 <= c22 * wg
        <= 79_000_000_000_000_000_000_000_000) by (nonlinear_arith)
        requires
            -80_000_000_000_000 <= c02 <= 80_000_000_000_000 && -80_000_000_000_000 <= c12
                <= 80_000_000_000_000 && -80_000_000_000_000 <= c22 <= 80_000_000_000_000 && 0
                <= wg <= 981_000_000_000;
}

/// Convert a wide solved force in newtons to kilograms, clamping at the
/// solver's tension cap.
fn newtons_to_kg_clamped(t: i128) -> (r: i64)
    requires
        abs_int(t as int) <= 4_000_000_000_000_000_000,
    ensures
        r == spec_newtons_to_kg(t as int),
        0 <= r <= 500_000_000_000_000_000,
{
    newtons_to_kg(t)
}

/// Whether the tension system of a sling count is solvable: one sling needs
/// only its length, two need the moment balance and upward slings, three a
/// nondegenerate direction matrix, four to six a nondegenerate normal
/// system; no other count is solvable.
pub open spec fn spec_tensions_solvable(load: Load, sl: Seq<Sling>) -> bool {
    if sl.len() == 1 {
        spec_lengths_ok(sl)
    } else if sl.len() == 2 {
        let r1 = spec_norm(spec_sub(sl[0].attachment_point, load.center_of_gravity));
        let r2 = spec_norm(spec_sub(sl[1].attachment_point, load.center_of_gravity));
        let cos1 = spec_cos_mdeg(spec_sling_angle_mdeg(spec_sling_vec(sl[0])));
        let cos2 = spec_cos_mdeg(spec_sling_angle_mdeg(spec_sling_vec(sl[1])));
        r1 + r2 >= 1 && spec_lengths_ok(sl) && cos1 >= 1 && cos2 >= 1
    } else if sl.len() == 3 {
        spec_lengths_ok(sl) && abs_int(spec_det3(spec_triple(spec_sling_unit(sl[0])),
            spec_triple(spec_sling_unit(sl[1])), spec_triple(spec_sling_unit(sl[2]))))
            >= DET_EPS_SCALED as int
    } else if 4 <= sl.len() <= 6 {
        spec_lengths_ok(sl) && spec_multi_solvable(sl)
    } else {
        false
    }
}

/// The solved tension of sling `i`, by the sling count's own solver.
pub open spec fn spec_solved_tension(load: Load, sl: Seq<Sling>, i: int) -> int {
    if sl.len() == 1 {
        load.weight_kg as int
    } else if sl.len() == 2 {
        let r1 = spec_norm(spec_sub(sl[0].attachment_point, load.center_of_gravity));
        let r2 = spec_norm(spec_sub(sl[1].attachment_point, load.center_of_gravity));
        let cos1 = spec_cos_mdeg(spec_sling_angle_mdeg(spec_sling_vec(sl[0])));
        let cos2 = spec_cos_mdeg(spec_sling_angle_mdeg(spec_sling_vec(sl[1])));
        let t = spec_two_sling_tensions(load.weight_kg as int, r1, r2, cos1, cos2);
        if i == 0 {
            t.0
        } else {
            t.1
        }
    } else if sl.len() == 3 {
        let u1 = spec_triple(spec_sling_unit(sl[0]));
        let u2 = spec_triple(spec_sling_unit(sl[1]));
        let u3 = spec_triple(spec_sling_unit(sl[2]));
        let det = spec_det3(u1, u2, u3);
        let m = load.weight_kg * 9810;
        if i == 0 {
            spec_newtons_to_kg(spec_cramer_quotient(spec_det3(u2, u3, (0, 0, m)), det))
        } else if i == 1 {
            spec_newtons_to_kg(spec_cramer_quotient(spec_det3(u3, u1, (0, 0, m)), det))
        } else {
            spec_newtons_to_kg(spec_cramer_quotient(spec_det3(u1, u2, (0, 0, m)), det))
        }
    } else {
        spec_multi_tension(sl, load.weight_kg as int, i)
    }
}

impl RiggingCalculator {
    /// Solve the sling tensions of a configuration and analyze each sling:
    /// one sling carries the full load weight; two use the planar moment
    /// balance; three the exact Cramer solution; four to six the
    /// least-squares distribution.  Fails with `InsufficientPickPoints` if
    /// and only if no sling is attached, and with `InvalidConfiguration` on
    /// more than six slings or unsolvable geometry.
    pub fn calculate_sling_tensions(
        load: &Load,
        slings: &Vec<Sling>,
        _hook_position: Point3Mm,
    ) -> (r: Result<Vec<SlingTensionAnalysis>, RiggingError>)
        requires
            load_ok(*load),
            forall|i: int| 0 <= i < slings@.len() ==> sling_ok(#[trigger] slings@[i]),
        ensures
            slings@.len() == 0 <==> r is Err && r->Err_0 is InsufficientPickPoints,
            slings@.len() > 6 ==> r is Err && r->Err_0 is InvalidConfiguration,
            r is Err && slings@.len() > 0 ==> r->Err_0 is InvalidConfiguration
                || r->Err_0 is MathError,
            r is Ok <==> 1 <= slings@.len() <= 6 && spec_tensions_solvable(*load, slings@),
            r is Ok ==> r->Ok_0@.len() == slings@.len(),
            r is Ok ==> forall|i: int| 0 <= i < r->Ok_0@.len() ==> spec_analysis_matches(
                slings@[i], spec_solved_tension(*load, slings@, i), #[trigger] r->Ok_0@[i]),
            r is Ok ==> forall|i: int| 0 <= i < r->Ok_0@.len() ==> 0 <= (
            #[trigger] r->Ok_0@[i]).tension_kg <= 900_000_000_000_000_000 && -2_000_000_000
                <= r->Ok_0@[i].capacity_kg <= 2_000_000_000,
    {
        let n = slings.len();
        if n == 0 {
            return Err(RiggingError::InsufficientPickPoints);
        }
        if n > 6 {
            return Err(RiggingError::InvalidConfiguration(String::from_str(
                "Too many slings (max 6 supported)",
            )));
        }
        let tensions: Vec<i64> = if n == 1 {
            let mut t: Vec<i64> = Vec::new();
            t.push(load.weight_kg);
            t
        } else if n == 2 {
            match Self::solve_two_sling_system(load, slings) {
                Ok(t) => t,
                Err(e) => {
                    return Err(e);
                },
            }
        } else if n == 3 {
            match Self::solve_three_sling_system(load, slings) {
                Ok(t) => t,
                Err(e) => {
                    return Err(e);
                },
            }
        } else {
            match Self::solve_multi_sling_system(load, slings) {
                Ok(t) => t,
                Err(e) => {
                    return Err(e);
                },
            }
        };
        proof {
            assert(forall|i: int| 0 <= i < tensions@.len() ==> 0 <= #[trigger] tensions@[i]
                <= 900_000_000_000_000_000);
            assert forall|j: int| 0 <= j < tensions@.len() implies #[trigger] tensions@[j]
                == spec_solved_tension(*load, slings@, j) by {
                if n == 2 {
                    assert(j == 0 || j == 1);
                } else if n == 3 {
                    assert(j == 0 || j == 1 || j == 2);
                }
            };
        }
        let mut analyses: Vec<SlingTensionAnalysis> = Vec::new();
        let mut i: usize = 0;
        while i < n
            invariant
                0 <= i <= n,
                n == slings@.len(),
                n == tensions@.len(),
                n >= 1,
                forall|j: int| 0 <= j < slings@.len() ==> sling_ok(#[trigger] slings@[j]),
                forall|j: int| 0 <= j < tensions@.len() ==> 0 <= #[trigger] tensions@[j]
                    <= 900_000_000_000_000_000,
                analyses@.len() == i,
                forall|j: int| 0 <= j < i ==> 0 <= (#[trigger] analyses@[j]).tension_kg
                    <= 900_000_000_000_000_000 && -2_000_000_000 <= analyses@[j].capacity_kg
                    <= 2_000_000_000,
                forall|j: int| 0 <= j < tensions@.len() ==> #[trigger] tensions@[j]
                    == spec_solved_tension(*load, slings@, j),
                forall|j: int| 0 <= j < i ==> spec_analysis_matches(slings@[j],
                    spec_solved_tension(*load, slings@, j), #[trigger] analyses@[j]),
                forall|j: int| 0 <= j < i ==> spec_norm_sq(spec_sling_vec(
                    #[trigger] slings@[j])) >= 1,
                n == 2 ==> spec_tensions_solvable(*load, slings@),
                n == 3 ==> spec_tensions_solvable(*load, slings@),
                4 <= n <= 6 ==> spec_tensions_solvable(*load, slings@),
            decreases n - i,
        {
            match Self::analyze_single_sling(&slings[i], tensions[i]) {
                Ok(a) => {
                    analyses.push(a);
                },
                Err(e) => {
                    return Err(e);
                },
            }
            i = i + 1;
        }
        Ok(analyses)
    }

    /// Check whether the load hangs balanced: the tension-weighted centroid
    /// of the attachment points must fall within 5 cm of the centre of
    /// gravity.  With no positive total tension the load counts as
    /// unbalanced with no tilt report; otherwise an unbalanced load gets
    /// approximate tilt angles around the X and Y axes.  The result
    /// satisfies [`spec_balance_matches`].
    pub fn check_balance(
        load: &Load,
        slings: &Vec<Sling>,
        tensions: &Vec<SlingTensionAnalysis>,
    ) -> (r: (bool, Option<Vec3Mm>))
        requires
            load_ok(*load),
            slings@.len() == tensions@.len(),
            slings@.len() <= 6,
            forall|i: int| 0 <= i < slings@.len() ==> sling_ok(#[trigger] slings@[i]),
            forall|i: int| 0 <= i < tensions@.len() ==> 0 <= (#[trigger] tensions@[i]).tension_kg
                <= 900_000_000_000_000_000,
        ensures
            spec_balance_matches(*load, slings@, tensions@, r),
            r.0 ==> r.1 is None,
    {
        let n = slings.len();
        let mut total: i64 = 0;
        let mut i: usize = 0;
        while i < n
            invariant
                0 <= i <= n,
                n == tensions@.len(),
                n <= 6,
                forall|j: int| 0 <= j < tensions@.len() ==> 0 <= (
                #[trigger] tensions@[j]).tension_kg <= 900_000_000_000_000_000,
                total == spec_tension_sum(tensions@, i as int),
                0 <= total <= (i as int) * 900_000_000_000_000_000,
            decreases n - i,
        {
            proof {
                assert((i as int) * 900_000_000_000_000_000 + 900_000_000_000_000_000 == (
                i as int + 1) * 900_000_000_000_000_000) by (nonlinear_arith);
                assert((i as int + 1) * 900_000_000_000_000_000 <= 5_400_000_000_000_000_000)
                    by (nonlinear_arith)
                    requires i as int + 1 <= 6;
            }
            total = total + tensions[i].tension_kg;
            i = i + 1;
        }
        proof {
            assert((n as int) * 900_000_000_000_000_000 <= 5_400_000_000_000_000_000)
                by (nonlinear_arith)
                requires n <= 6;
        }
        if total <= 0 {
            return (false, None);
        }
        let mut sx: i128 = 0;
        let mut sy: i128 = 0;
        let mut sz: i128 = 0;
        let mut j: usize = 0;
        while j < n
            invariant
                0 <= j <= n,
                n == slings@.len(),
                n == tensions@.len(),
                n <= 6,
                forall|k: int| 0 <= k < slings@.len() ==> sling_ok(#[trigger] slings@[k]),
                forall|k: int| 0 <= k < tensions@.len() ==> 0 <= (
                #[trigger] tensions@[k]).tension_kg <= 900_000_000_000_000_000,
                abs_int(sx as int) <= (j as int) * 900_000_000_000_000_000_000_000_000,
                abs_int(sy as int) <= (j as int) * 900_000_000_000_000_000_000_000_000,
                abs_int(sz as int) <= (j as int) * 900_000_000_000_000_000_000_000_000,
                sx == spec_moment_x(slings@, tensions@, j as int),
                sy == spec_moment_y(slings@, tensions@, j as int),
                sz == spec_moment_z(slings@, tensions@, j as int),
            decreases n - j,
        {
            let a = slings[j].attachment_point;
            let t = tensions[j].tension_kg;
            proof {
                assert(-900_000_000_000_000_000_000_000_000 <= (a.x as int) * (t as int)
                    <= 900_000_000_000_000_000_000_000_000
                    && -900_000_000_000_000_000_000_000_000 <= (a.y as int) * (t as int)
                    <= 900_000_000_000_000_000_000_000_000
                    && -900_000_000_000_000_000_000_000_000 <= (a.z as int) * (t as int)
                    <= 900_000_000_000_000_000_000_000_000) by (nonlinear_arith)
                    requires
                        -1_000_000_000 <= a.x <= 1_000_000_000 && -1_000_000_000 <= a.y
                            <= 1_000_000_000 && -1_000_000_000 <= a.z <= 1_000_000_000 && 0 <= t
                            <= 900_000_000_000_000_000;
                assert((j as int) * 900_000_000_000_000_000_000_000_000
                    + 900_000_000_000_000_000_000_000_000 == (j as int + 1)
                    * 900_000_000_000_000_000_000_000_000) by (nonlinear_arith);
                assert((j as int + 1) * 900_000_000_000_000_000_000_000_000
                    <= 5_400_000_000_000_000_000_000_000_000) by (nonlinear_arith)
                    requires j as int + 1 <= 6;
            }
            sx = sx + (a.x as i128) * (t as i128);
            sy = sy + (a.y as i128) * (t as i128);
            sz = sz + (a.z as i128) * (t as i128);
            j = j + 1;
        }
        proof {
            assert((n as int) * 900_000_000_000_000_000_000_000_000
                <= 5_400_000_000_000_000_000_000_000_000) by (nonlinear_arith)
                requires n <= 6;
            crate::num::lemma_quotient_bound(sx as int, total as int,
                5_400_000_000_000_000_000_000_000_000, 1);
            crate::num::lemma_quotient_bound(sy as int, total as int,
                5_400_000_000_000_000_000_000_000_000, 1);
            crate::num::lemma_quotient_bound(sz as int, total as int,
                5_400_000_000_000_000_000_000_000_000, 1);
        }
        let wx: i128 = div_floor_i128(sx, total as i128);
        let wy: i128 = div_floor_i128(sy, total as i128);
        let wz: i128 = div_floor_i128(sz, total as i128);
        // the weighted centroid lies in the attachments' coordinate range
        let wx64: i64 = clamp_coord(wx);
        let wy64: i64 = clamp_coord(wy);
        let wz64: i64 = clamp_coord(wz);
        let cog = load.center_of_gravity;
        let offset = Vec3Mm { x: wx64 - cog.x, y: wy64 - cog.y, z: wz64 - cog.z };
        let offset_norm = norm_mm(&offset);
        if offset_norm < 50 {
            (true, None)
        } else {
            let tilt_x = crate::kinematics::rise_run_angle_mdeg(offset.x, load.dimensions.z);
            let tilt_y = crate::kinematics::rise_run_angle_mdeg(offset.y, load.dimensions.z);
            (false, Some(Vec3Mm { x: tilt_x, y: tilt_y, z: 0 }))
        }
    }

    /// Run the whole rigging analysis: the solved tensions and per-sling
    /// reports, the balance check, the rigging's own weight, the safety
    /// summary and the advisory warnings.  Any solver error is propagated
    /// unchanged; a lift succeeds if and only if its sling count's system is
    /// solvable.
    pub fn analyze(config: &RiggingConfiguration) -> (r: Result<RiggingAnalysis, RiggingError>)
        requires
            rigging_config_wf(*config),
        ensures
            config.slings@.len() == 0 <==> r is Err && r->Err_0 is InsufficientPickPoints,
            r is Err && config.slings@.len() > 0 ==> r->Err_0 is InvalidConfiguration
                || r->Err_0 is MathError,
            r is Ok <==> 1 <= config.slings@.len() <= 6 && spec_tensions_solvable(config.load,
                config.slings@),
            r is Ok ==> ({
                let a = r->Ok_0;
                &&& a.sling_tensions@.len() == config.slings@.len()
                &&& (forall|i: int| 0 <= i < a.sling_tensions@.len() ==> spec_analysis_matches(
                    config.slings@[i], spec_solved_tension(config.load, config.slings@, i),
                    #[trigger] a.sling_tensions@[i]))
                &&& spec_balance_matches(config.load, config.slings@, a.sling_tensions@, (
                a.is_balanced, a.tilt_angle_mdeg))
                &&& a.total_rigging_weight_kg == spec_rigging_weight_kg(config.slings@,
                    config.hardware@)
                &&& spec_safety_matches(config.load, a.sling_tensions@,
                    config.crane_hook_position, a.safety_analysis)
                &&& a.warnings@ == spec_all_warnings(a.sling_tensions@, a.safety_analysis)
                &&& (a.is_balanced ==> a.tilt_angle_mdeg is None)
            }),
    {
        let sling_tensions = match Self::calculate_sling_tensions(&config.load, &config.slings,
            config.crane_hook_position) {
            Ok(t) => t,
            Err(e) => {
                return Err(e);
            },
        };
        proof {
            assert(config.slings@.len() <= 6);
        }
        let balance = Self::check_balance(&config.load, &config.slings, &sling_tensions);
        let total_rigging_weight_kg = Self::calculate_rigging_weight_kg(&config.slings,
            &config.hardware);
        let safety_analysis = Self::analyze_safety(&config.load, &sling_tensions,
            config.crane_hook_position);
        let warnings = Self::generate_warnings(&sling_tensions, &safety_analysis);
        Ok(RiggingAnalysis {
            sling_tensions,
            total_rigging_weight_kg,
            is_balanced: balance.0,
            tilt_angle_mdeg: balance.1,
            safety_analysis,
            warnings,
        })
    }
}

/// Clamp a 128-bit coordinate into the engine's coordinate range; the
/// result equals [`spec_clamp_coord`].
fn clamp_coord(x: i128) -> (r: i64)
    ensures
        r == spec_clamp_coord(x as int),
        -1_000_000_000 <= r <= 1_000_000_000,
{
    if x > 1_000_000_000 {
        1_000_000_000
    } else if x < -1_000_000_000 {
        -1_000_000_000
    } else {
        x as i64
    }
}

/// A symmetric two-point lift of a centred load distributes tension evenly:
/// with the two attachments equally far from the centre of gravity and the
/// two slings at equal angles, both shares of
/// [`spec_two_sling_tensions`] coincide.
pub proof fn lemma_symmetric_two_point_even(w: int, r1: int, r2: int, cos1: int, cos2: int)
    requires
        r1 == r2,
        cos1 == cos2,
    ensures
        spec_two_sling_tensions(w, r1, r2, cos1, cos2).0 == spec_two_sling_tensions(w, r1, r2,
            cos1, cos2).1,
{
}

/// Coplanar or collinear sling directions are explicitly unsolvable: an
/// integer dependency among the three scaled unit directions drives the
/// determinant to zero, below [`DET_EPS_SCALED`], so
/// [`RiggingCalculator::solve_three_sling_system`] reports the
/// invalid-configuration error rather than a silent wrong answer.
pub proof fn lemma_coplanar_directions_unsolvable(
    u1: (int, int, int),
    u2: (int, int, int),
    u3: (int, int, int),
    ka: int,
    kb: int,
    kc: int,
)
    requires
        kc != 0,
        ka * u1.0 + kb * u2.0 + kc * u3.0 == 0,
        ka * u1.1 + kb * u2.1 + kc * u3.1 == 0,
        ka * u1.2 + kb * u2.2 + kc * u3.2 == 0,
    ensures
        abs_int(spec_det3(u1, u2, u3)) < DET_EPS_SCALED as int,
{
    crate::statics::lemma_dependent_columns_det_zero(u1, u2, u3, ka, kb, kc);
}

/// A symmetric four-point lift of a centred load distributes tension
/// evenly: with the four unit sling directions exact mirror images over the
/// X and Y axes and a common vertical share, all four least-squares
/// tensions of [`spec_multi_tension`] coincide.  (Directions quantized by
/// rounding may miss exact mirror symmetry by one part in a thousand; the
/// law speaks of exactly mirrored directions.)
pub proof fn lemma_symmetric_four_point_even(sl: Seq<Sling>, w: int)
    requires
        sl.len() == 4,
        spec_sling_unit(sl[1]).x == spec_sling_unit(sl[0]).x,
        spec_sling_unit(sl[1]).y == -spec_sling_unit(sl[0]).y,
        spec_sling_unit(sl[1]).z == spec_sling_unit(sl[0]).z,
        spec_sling_unit(sl[2]).x == -spec_sling_unit(sl[0]).x,
        spec_sling_unit(sl[2]).y == spec_sling_unit(sl[0]).y,
        spec_sling_unit(sl[2]).z == spec_sling_unit(sl[0]).z,
        spec_sling_unit(sl[3]).x == -spec_sling_unit(sl[0]).x,
        spec_sling_unit(sl[3]).y == -spec_sling_unit(sl[0]).y,
        spec_sling_unit(sl[3]).z == spec_sling_unit(sl[0]).z,
    ensures
        spec_multi_tension(sl, w, 1) == spec_multi_tension(sl, w, 0),
        spec_multi_tension(sl, w, 2) == spec_multi_tension(sl, w, 0),
        spec_multi_tension(sl, w, 3) == spec_multi_tension(sl, w, 0),
{
    assert(spec_gram_xy(sl, 1) == spec_gram_xy(sl, 0) + spec_sling_unit(sl[0]).x
        * spec_sling_unit(sl[0]).y);
    assert(spec_gram_xy(sl, 2) == spec_gram_xy(sl, 1) + spec_sling_unit(sl[1]).x
        * spec_sling_unit(sl[1]).y);
    assert(spec_gram_xy(sl, 3) == spec_gram_xy(sl, 2) + spec_sling_unit(sl[2]).x
        * spec_sling_unit(sl[2]).y);
    assert(spec_gram_xy(sl, 4) == spec_gram_xy(sl, 3) + spec_sling_unit(sl[3]).x
        * spec_sling_unit(sl[3]).y);
    assert(spec_gram_xz(sl, 1) == spec_gram_xz(sl, 0) + spec_sling_unit(sl[0]).x
        * spec_sling_unit(sl[0]).z);
    assert(spec_gram_xz(sl, 2) == spec_gram_xz(sl, 1) + spec_sling_unit(sl[1]).x
        * spec_sling_unit(sl[1]).z);
    assert(spec_gram_xz(sl, 3) == spec_gram_xz(sl, 2) + spec_sling_unit(sl[2]).x
        * spec_sling_unit(sl[2]).z);
    assert(spec_gram_xz(sl, 4) == spec_gram_xz(sl, 3) + spec_sling_unit(sl[3]).x
        * spec_sling_unit(sl[3]).z);
    assert(spec_gram_yz(sl, 1) == spec_gram_yz(sl, 0) + spec_sling_unit(sl[0]).y
        * spec_sling_unit(sl[0]).z);
    assert(spec_gram_yz(sl, 2) == spec_gram_yz(sl, 1) + spec_sling_unit(sl[1]).y
        * spec_sling_unit(sl[1]).z);
    assert(spec_gram_yz(sl, 3) == spec_gram_yz(sl, 2) + spec_sling_unit(sl[2]).y
        * spec_sling_unit(sl[2]).z);
    assert(spec_gram_yz(sl, 4) == spec_gram_yz(sl, 3) + spec_sling_unit(sl[3]).y
        * spec_sling_unit(sl[3]).z);
    assert(spec_gram_xy(sl, 4) == 0) by (nonlinear_arith)
        requires
            spec_gram_xy(sl, 4) == spec_gram_xy(sl, 0) + spec_sling_unit(sl[0]).x
                * spec_sling_unit(sl[0]).y + spec_sling_unit(sl[1]).x * spec_sling_unit(sl[1]).y
                + spec_sling_unit(sl[2]).x * spec_sling_unit(sl[2]).y + spec_sling_unit(sl[3]).x
                * spec_sling_unit(sl[3]).y && spec_gram_xy(sl, 0) == 0 && spec_sling_unit(
                sl[1]).x == spec_sling_unit(sl[0]).x && spec_sling_unit(sl[1]).y
                == -spec_sling_unit(sl[0]).y && spec_sling_unit(sl[2]).x == -spec_sling_unit(
                sl[0]).x && spec_sling_unit(sl[2]).y == spec_sling_unit(sl[0]).y
                && spec_sling_unit(sl[3]).x == -spec_sling_unit(sl[0]).x && spec_sling_unit(
                sl[3]).y == -spec_sling_unit(sl[0]).y;
    assert(spec_gram_xz(sl, 4) == 0) by (nonlinear_arith)
        requires
            spec_gram_xz(sl, 4) == spec_gram_xz(sl, 0) + spec_sling_unit(sl[0]).x
                * spec_sling_unit(sl[0]).z + spec_sling_unit(sl[1]).x * spec_sling_unit(sl[1]).z
                + spec_sling_unit(sl[2]).x * spec_sling_unit(sl[2]).z + spec_sling_unit(sl[3]).x
                * spec_sling_unit(sl[3]).z && spec_gram_xz(sl, 0) == 0 && spec_sling_unit(
                sl[1]).x == spec_sling_unit(sl[0]).x && spec_sling_unit(sl[1]).z
                == spec_sling_unit(sl[0]).z && spec_sling_unit(sl[2]).x == -spec_sling_unit(
                sl[0]).x && spec_sling_unit(sl[2]).z == spec_sling_unit(sl[0]).z
                && spec_sling_unit(sl[3]).x == -spec_sling_unit(sl[0]).x && spec_sling_unit(
                sl[3]).z == spec_sling_unit(sl[0]).z;
    assert(spec_gram_yz(sl, 4) == 0) by (nonlinear_arith)
        requires
            spec_gram_yz(sl, 4) == spec_gram_yz(sl, 0) + spec_sling_unit(sl[0]).y
                * spec_sling_unit(sl[0]).z + spec_sling_unit(sl[1]).y * spec_sling_unit(sl[1]).z
                + spec_sling_unit(sl[2]).y * spec_sling_unit(sl[2]).z + spec_sling_unit(sl[3]).y
                * spec_sling_unit(sl[3]).z && spec_gram_yz(sl, 0) == 0 && spec_sling_unit(
                sl[1]).y == -spec_sling_unit(sl[0]).y && spec_sling_unit(sl[1]).z
                == spec_sling_unit(sl[0]).z && spec_sling_unit(sl[2]).y == spec_sling_unit(
                sl[0]).y && spec_sling_unit(sl[2]).z == spec_sling_unit(sl[0]).z
                && spec_sling_unit(sl[3]).y == -spec_sling_unit(sl[0]).y && spec_sling_unit(
                sl[3]).z == spec_sling_unit(sl[0]).z;
    let m01 = spec_gram_xy(sl, 4);
    let m02 = spec_gram_xz(sl, 4);
    let m12 = spec_gram_yz(sl, 4);
    let m00 = spec_gram_xx(sl, 4);
    let m11 = spec_gram_yy(sl, 4);
    let wg = w * 981;
    assert(spec_multi_c02(sl) == 0) by (nonlinear_arith)
        requires
            spec_multi_c02(sl) == spec_gram_xy(sl, 4) * spec_gram_yz(sl, 4) - spec_gram_xz(sl, 4)
                * spec_gram_yy(sl, 4) && spec_gram_xy(sl, 4) == 0 && spec_gram_xz(sl, 4) == 0;
    assert(spec_multi_c12(sl) == 0) by (nonlinear_arith)
        requires
            spec_multi_c12(sl) == spec_gram_xz(sl, 4) * spec_gram_xy(sl, 4) - spec_gram_xx(sl, 4)
                * spec_gram_yz(sl, 4) && spec_gram_xz(sl, 4) == 0 && spec_gram_yz(sl, 4) == 0;
    let c22wg = spec_multi_c22(sl) * wg;
    assert forall|i: int| 0 <= i < 4 implies spec_multi_num(sl, w, i) == spec_sling_unit(sl[0]).z
        * c22wg by {
        let u = spec_sling_unit(sl[i]);
        assert(u.z == spec_sling_unit(sl[0]).z);
        assert(u.x * (spec_multi_c02(sl) * wg) == 0 && u.y * (spec_multi_c12(sl) * wg) == 0)
            by (nonlinear_arith)
            requires spec_multi_c02(sl) == 0 && spec_multi_c12(sl) == 0;
    };
    // the lower-rank numerators collapse the same way
    assert(spec_multi_m2_02(sl) == 0) by (nonlinear_arith)
        requires
            spec_multi_m2_02(sl) == spec_gram_xx(sl, 4) * spec_gram_xz(sl, 4) + spec_gram_xy(
                sl, 4) * spec_gram_yz(sl, 4) + spec_gram_xz(sl, 4) * spec_gram_zz(sl, 4)
                && spec_gram_xz(sl, 4) == 0 && spec_gram_xy(sl, 4) == 0;
    assert(spec_multi_m2_12(sl) == 0) by (nonlinear_arith)
        requires
            spec_multi_m2_12(sl) == spec_gram_xy(sl, 4) * spec_gram_xz(sl, 4) + spec_gram_yy(
                sl, 4) * spec_gram_yz(sl, 4) + spec_gram_yz(sl, 4) * spec_gram_zz(sl, 4)
                && spec_gram_xz(sl, 4) == 0 && spec_gram_xy(sl, 4) == 0 && spec_gram_yz(sl, 4)
                == 0;
    let s = spec_multi_tr(sl);
    let q = spec_multi_e2(sl);
    assert(spec_rank2_p02(sl) == 0) by (nonlinear_arith)
        requires
            spec_rank2_p02(sl) == s * s * spec_gram_xz(sl, 4) - s * spec_multi_m2_02(sl) - q
                * spec_gram_xz(sl, 4) && spec_gram_xz(sl, 4) == 0 && spec_multi_m2_02(sl) == 0;
    assert(spec_rank2_p12(sl) == 0) by (nonlinear_arith)
        requires
            spec_rank2_p12(sl) == s * s * spec_gram_yz(sl, 4) - s * spec_multi_m2_12(sl) - q
                * spec_gram_yz(sl, 4) && spec_gram_yz(sl, 4) == 0 && spec_multi_m2_12(sl) == 0;
    let p22wg = spec_rank2_p22(sl) * wg;
    assert forall|i: int| 0 <= i < 4 implies spec_multi_num2(sl, w, i) == spec_sling_unit(
        sl[0]).z * p22wg by {
        let u = spec_sling_unit(sl[i]);
        assert(u.z == spec_sling_unit(sl[0]).z);
        assert(u.x * (spec_rank2_p02(sl) * wg) == 0 && u.y * (spec_rank2_p12(sl) * wg) == 0)
            by (nonlinear_arith)
            requires spec_rank2_p02(sl) == 0 && spec_rank2_p12(sl) == 0;
    };
    let zzwg = spec_gram_zz(sl, 4) * wg;
    assert forall|i: int| 0 <= i < 4 implies spec_multi_num1(sl, w, i) == spec_sling_unit(
        sl[0]).z * zzwg by {
        let u = spec_sling_unit(sl[i]);
        assert(u.z == spec_sling_unit(sl[0]).z);
        assert(u.x * (spec_gram_xz(sl, 4) * wg) == 0 && u.y * (spec_gram_yz(sl, 4) * wg) == 0)
            by (nonlinear_arith)
            requires spec_gram_xz(sl, 4) == 0 && spec_gram_yz(sl, 4) == 0;
    };
}

/// The Cramer numerator of one sling in the least-squares system.
pub open spec fn spec_multi_num(sl: Seq<Sling>, w: int, i: int) -> int {
    let wg = w * 981;
    let u = spec_sling_unit(sl[i]);
    u.x * (spec_multi_c02(sl) * wg) + u.y * (spec_multi_c12(sl) * wg) + u.z * (spec_multi_c22(sl)
        * wg)
}

} // verus!
