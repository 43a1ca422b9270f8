//! Ground bearing analysis: whether the soil under each support point can
//! carry its share of the crane's weight.
//!
//! Contact areas are square millimetres, pressures pascals, soil capacities
//! kilopascals, and the safety factor parts per thousand (2000 stands for a
//! 2:1 factor).  The default soil capacities are generalized values, not to
//! be used for actual lift plans; ground pressure capacities must be tested
//! and verified by qualified personnel in the field.

use vstd::prelude::*;
use crate::geom::Point3Mm;
use crate::text::{spec_udec, udec_string};

verus! {

/// Largest pad, mat or tire dimension accepted: 1 km.
pub const MAX_SUPPORT_MM: i64 = 1_000_000;

/// Largest load one support point may carry.
pub const MAX_SUPPORT_KG: i64 = 1_000_000_000;

/// Largest soil capacity accepted, in kilopascals.
pub const MAX_SOIL_KPA: i64 = 10_000_000;

/// Pad material.
#[derive(Clone, Copy, Debug, PartialEq, Eq, Structural)]
pub enum PadMaterial {
    Steel,
    Hardwood,
    Composite,
}

/// Mat material.
#[derive(Clone, Copy, Debug, PartialEq, Eq, Structural)]
pub enum MatMaterial {
    /// Hardwood beams, the most common.
    TimberMat,
    /// Modern synthetic materials.
    CompositeMat,
    /// Heavy steel plates for extreme loads.
    SteelPlate,
}

/// What stands between a support point and the ground.
#[derive(Clone, Copy, Debug, PartialEq, Structural)]
pub enum SupportType {
    /// Direct support with just a pad: good ground conditions.
    OutriggerPad { pad_diameter_mm: i64, pad_material: PadMaterial },
    /// Crane on tires: a much smaller contact patch.
    Tire { tire_width_mm: i64, tire_diameter_mm: i64 },
    /// A mat with a pad on top: soft ground needing load spreading.  The
    /// mat, not the pad, determines the spread area.
    MatWithPad {
        mat_length_mm: i64,
        mat_width_mm: i64,
        mat_material: MatMaterial,
        pad_diameter_mm: i64,
        pad_material: PadMaterial,
    },
    /// Just a mat, no separate pad.
    Mat { mat_length_mm: i64, mat_width_mm: i64, mat_material: MatMaterial },
}

/// Dimensions within the engine's bounds.
pub open spec fn support_type_ok(t: SupportType) -> bool {
    match t {
        SupportType::OutriggerPad { pad_diameter_mm, .. } => 0 <= pad_diameter_mm
            <= MAX_SUPPORT_MM,
        SupportType::Tire { tire_width_mm, tire_diameter_mm } => 0 <= tire_width_mm
            <= MAX_SUPPORT_MM && 0 <= tire_diameter_mm <= MAX_SUPPORT_MM,
        SupportType::MatWithPad { mat_length_mm, mat_width_mm, pad_diameter_mm, .. } => 0
            <= mat_length_mm <= MAX_SUPPORT_MM && 0 <= mat_width_mm <= MAX_SUPPORT_MM && 0
            <= pad_diameter_mm <= MAX_SUPPORT_MM,
        SupportType::Mat { mat_length_mm, mat_width_mm, .. } => 0 <= mat_length_mm
            <= MAX_SUPPORT_MM && 0 <= mat_width_mm <= MAX_SUPPORT_MM,
    }
}

/// The ground contact area of a support, in square millimetres: a circular
/// pad's disc, a tire's approximate patch (width by 15 percent of the
/// diameter), or a mat's full rectangle.
pub open spec fn spec_contact_area_mm2(t: SupportType) -> int {
    match t {
        SupportType::OutriggerPad { pad_diameter_mm, .. } => pad_diameter_mm * pad_diameter_mm
            * 3_141_593 / 4_000_000,
        SupportType::Tire { tire_width_mm, tire_diameter_mm } => tire_width_mm * tire_diameter_mm
            * 15 / 100,
        SupportType::MatWithPad { mat_length_mm, mat_width_mm, .. } => mat_length_mm
            * mat_width_mm,
        SupportType::Mat { mat_length_mm, mat_width_mm, .. } => mat_length_mm * mat_width_mm,
    }
}

impl SupportType {
    /// The contact area with the ground; the result equals
    /// [`spec_contact_area_mm2`].
    pub fn contact_area_mm2(&self) -> (r: i64)
        requires
            support_type_ok(*self),
        ensures
            r == spec_contact_area_mm2(*self),
            0 <= r <= 1_000_000_000_000,
    {
        match self {
            SupportType::OutriggerPad { pad_diameter_mm, .. } => {
                let d = *pad_diameter_mm;
                proof {
                    assert(0 <= (d as int) * (d as int) <= 1_000_000_000_000) by (nonlinear_arith)
                        requires 0 <= d <= 1_000_000;
                    let sq = (d as int) * (d as int);
                    assert(0 <= sq * 3_141_593 <= 3_141_593_000_000_000_000) by (nonlinear_arith)
                        requires 0 <= sq <= 1_000_000_000_000;
                    vstd::arithmetic::div_mod::lemma_div_pos_is_pos(sq * 3_141_593, 4_000_000);
                    vstd::arithmetic::div_mod::lemma_div_is_ordered(sq * 3_141_593,
                        4_000_000_000_000_000_000, 4_000_000);
                    vstd::arithmetic::div_mod::lemma_div_multiples_vanish(1_000_000_000_000,
                        4_000_000);
                }
                let sq: i64 = d * d;
                ((sq as i128) * 3_141_593 / 4_000_000) as i64
            },
            SupportType::Tire { tire_width_mm, tire_diameter_mm } => {
                let w = *tire_width_mm;
                let d = *tire_diameter_mm;
                proof {
                    assert(0 <= (w as int) * (d as int) <= 1_000_000_000_000) by (nonlinear_arith)
                        requires 0 <= w <= 1_000_000 && 0 <= d <= 1_000_000;
                    let wd = (w as int) * (d as int);
                    assert(0 <= wd * 15 <= 15_000_000_000_000) by (nonlinear_arith)
                        requires 0 <= wd <= 1_000_000_000_000;
                    vstd::arithmetic::div_mod::lemma_div_pos_is_pos(wd * 15, 100);
                    vstd::arithmetic::div_mod::lemma_div_is_ordered(wd * 15, 100_000_000_000_000,
                        100);
                    vstd::arithmetic::div_mod::lemma_div_multiples_vanish(1_000_000_000_000, 100);
                }
                let wd: i64 = w * d;
                ((wd as i128) * 15 / 100) as i64
            },
            SupportType::MatWithPad { mat_length_mm, mat_width_mm, .. } => {
                proof {
                    assert(0 <= (*mat_length_mm as int) * (*mat_width_mm as int)
                        <= 1_000_000_000_000) by (nonlinear_arith)
                        requires 0 <= *mat_length_mm <= 1_000_000 && 0 <= *mat_width_mm
                            <= 1_000_000;
                }
                *mat_length_mm * *mat_width_mm
            },
            SupportType::Mat { mat_length_mm, mat_width_mm, .. } => {
                proof {
                    assert(0 <= (*mat_length_mm as int) * (*mat_width_mm as int)
                        <= 1_000_000_000_000) by (nonlinear_arith)
                        requires 0 <= *mat_length_mm <= 1_000_000 && 0 <= *mat_width_mm
                            <= 1_000_000;
                }
                *mat_length_mm * *mat_width_mm
            },
        }
    }
}

/// A load resting on the ground through one support.
#[derive(Clone, Copy, Debug)]
pub struct SupportPoint {
    pub position: Point3Mm,
    pub load_kg: i64,
    pub support_type: SupportType,
}

/// A support point within the engine's bounds.
pub open spec fn support_point_ok(p: SupportPoint) -> bool {
    0 <= p.load_kg <= MAX_SUPPORT_KG && support_type_ok(p.support_type)
}

impl SupportPoint {
    /// A support point standing on a bare pad: good ground.
    pub fn with_pad(
        position: Point3Mm,
        load_kg: i64,
        pad_diameter_mm: i64,
        pad_material: PadMaterial,
    ) -> (r: SupportPoint)
        requires
            0 <= load_kg <= MAX_SUPPORT_KG,
            0 <= pad_diameter_mm <= MAX_SUPPORT_MM,
        ensures
            r == (SupportPoint {
                position,
                load_kg,
                support_type: SupportType::OutriggerPad { pad_diameter_mm, pad_material },
            }),
            support_point_ok(r),
    {
        SupportPoint {
            position,
            load_kg,
            support_type: SupportType::OutriggerPad { pad_diameter_mm, pad_material },
        }
    }

    /// A support point standing on a mat with a pad on top: soft ground.
    pub fn with_mat_and_pad(
        position: Point3Mm,
        load_kg: i64,
        mat_length_mm: i64,
        mat_width_mm: i64,
        mat_material: MatMaterial,
        pad_diameter_mm: i64,
        pad_material: PadMaterial,
    ) -> (r: SupportPoint)
        requires
            0 <= load_kg <= MAX_SUPPORT_KG,
            0 <= mat_length_mm <= MAX_SUPPORT_MM,
            0 <= mat_width_mm <= MAX_SUPPORT_MM,
            0 <= pad_diameter_mm <= MAX_SUPPORT_MM,
        ensures
            r == (SupportPoint {
                position,
                load_kg,
                support_type: SupportType::MatWithPad {
                    mat_length_mm,
                    mat_width_mm,
                    mat_material,
                    pad_diameter_mm,
                    pad_material,
                },
            }),
            support_point_ok(r),
    {
        SupportPoint {
            position,
            load_kg,
            support_type: SupportType::MatWithPad {
                mat_length_mm,
                mat_width_mm,
                mat_material,
                pad_diameter_mm,
                pad_material,
            },
        }
    }

    /// The contact area of this point's support with the ground.
    pub fn contact_area_mm2(&self) -> (r: i64)
        requires
            support_point_ok(*self),
        ensures
            r == spec_contact_area_mm2(self.support_type),
            0 <= r <= 1_000_000_000_000,
    {
        self.support_type.contact_area_mm2()
    }
}

/// Soil and ground types with typical allowable bearing capacities.
#[derive(Clone, Copy, Debug, PartialEq, Structural)]
pub enum SoilType {
    /// Hard rock: granite, trap, diorite, gneiss.
    HardRock,
    /// Medium rock: marble, some limestone and schist.
    MediumRock,
    /// Intermediate rock: shale, sandstone.
    IntermediateRock,
    /// Soft rock: weathered rock, soft shale.
    SoftRock,
    /// Dense-graded aggregate, compacted tightly.
    DenseGravel,
    /// Medium-graded gravel, more stone than fine components.
    MediumGravel,
    /// Loose gravel, not compacted, not graded.
    LooseGravel,
    /// Dense, compacted sand.
    DenseSand,
    /// Medium compacted sand.
    MediumSand,
    /// Loose sand, not compacted.
    LooseSand,
    /// Hard, natural earthy material.
    HardClay,
    /// Stiff, natural earthy material.
    StiffClay,
    /// Medium, natural earthy material.
    MediumClay,
    /// Soft, natural earthy material.
    SoftClay,
    /// Dense sediment: riverbeds, channels, harbors.
    DenseSilt,
    /// Medium sediment.
    MediumSilt,
    /// Loose sediment.
    LooseSilt,
    /// Soft organic soil.
    Peat,
    /// A capacity measured in the field.
    Custom { capacity_kpa: i64 },
}

/// The typical allowable bearing pressure of each soil type, in kilopascals.
pub open spec fn spec_soil_capacity_kpa(t: SoilType) -> int {
    match t {
        SoilType::HardRock => 5746,
        SoilType::MediumRock => 3830,
        SoilType::IntermediateRock => 1915,
        SoilType::SoftRock => 766,
        SoilType::DenseGravel => 600,
        SoilType::MediumGravel => 400,
        SoilType::LooseGravel => 200,
        SoilType::DenseSand => 600,
        SoilType::MediumSand => 300,
        SoilType::LooseSand => 100,
        SoilType::HardClay => 479,
        SoilType::StiffClay => 287,
        SoilType::MediumClay => 192,
        SoilType::SoftClay => 100,
        SoilType::DenseSilt => 287,
        SoilType::MediumSilt => 150,
        SoilType::LooseSilt => 75,
        SoilType::Peat => 25,
        SoilType::Custom { capacity_kpa } => capacity_kpa as int,
    }
}

/// A soil type whose capacity lies within the engine's bounds.
pub open spec fn soil_type_ok(t: SoilType) -> bool {
    match t {
        SoilType::Custom { capacity_kpa } => 0 <= capacity_kpa <= MAX_SOIL_KPA,
        _ => true,
    }
}

impl SoilType {
    /// The typical allowable bearing pressure in kilopascals; the result
    /// equals [`spec_soil_capacity_kpa`].
    pub fn allowable_bearing_capacity_kpa(&self) -> (r: i64)
        requires
            soil_type_ok(*self),
        ensures
            r == spec_soil_capacity_kpa(*self),
            0 <= r <= MAX_SOIL_KPA,
    {
        match self {
            SoilType::HardRock => 5746,
            SoilType::MediumRock => 3830,
            SoilType::IntermediateRock => 1915,
            SoilType::SoftRock => 766,
            SoilType::DenseGravel => 600,
            SoilType::MediumGravel => 400,
            SoilType::LooseGravel => 200,
            SoilType::DenseSand => 600,
            SoilType::MediumSand => 300,
            SoilType::LooseSand => 100,
            SoilType::HardClay => 479,
            SoilType::StiffClay => 287,
            SoilType::MediumClay => 192,
            SoilType::SoftClay => 100,
            SoilType::DenseSilt => 287,
            SoilType::MediumSilt => 150,
            SoilType::LooseSilt => 75,
            SoilType::Peat => 25,
            SoilType::Custom { capacity_kpa } => *capacity_kpa,
        }
    }
}

/// The support points, soil and safety factor of one bearing check.
#[derive(Clone, Debug)]
pub struct GroundConfiguration {
    pub support_points: Vec<SupportPoint>,
    pub soil_type: SoilType,
    /// Safety factor in parts per thousand: 2000 stands for 2:1.
    pub safety_factor_pm: i64,
}

/// A well-formed ground configuration.
pub open spec fn ground_config_wf(c: GroundConfiguration) -> bool {
    &&& forall|i: int| 0 <= i < c.support_points@.len() ==> support_point_ok(
        #[trigger] c.support_points@[i])
    &&& soil_type_ok(c.soil_type)
    &&& 0 <= c.safety_factor_pm <= 1_000_000
}

/// The bearing pressure report of one support point.
#[derive(Clone, Copy, Debug, PartialEq, Eq, Structural)]
pub struct BearingPressure {
    pub support_index: usize,
    pub pressure_pa: i64,
    pub allowable_pa: i64,
    pub is_safe: bool,
    /// Pressure over allowable, in parts per thousand.
    pub utilization_pm: i64,
}

/// The outcome of a ground bearing analysis.
#[derive(Clone, Debug)]
pub struct GroundBearingAnalysis {
    pub is_safe: bool,
    pub soil_type: SoilType,
    pub bearing_pressures: Vec<BearingPressure>,
}

/// The pressure a load puts on a contact area: `load * g` over the area,
/// in pascals (g as 9.81 m/s^2).
pub open spec fn spec_pressure_pa(load_kg: int, area_mm2: int) -> int {
    load_kg * 9_810_000 / area_mm2
}

/// The allowable pressure: the soil capacity divided by the safety factor,
/// in pascals.
pub open spec fn spec_allowable_pa(capacity_kpa: int, safety_factor_pm: int) -> int {
    capacity_kpa * 1_000_000 / safety_factor_pm
}

/// The utilization of a support in parts per thousand; with no allowable
/// pressure at all, an unloaded support reads zero and a loaded one reads
/// the largest representable value.
pub open spec fn spec_utilization_pm(pressure_pa: int, allowable_pa: int) -> int {
    if allowable_pa > 0 {
        let u = pressure_pa * 1000 / allowable_pa;
        if u > 0x7fff_ffff_ffff_ffff {
            0x7fff_ffff_ffff_ffff
        } else {
            u
        }
    } else if pressure_pa == 0 {
        0
    } else {
        0x7fff_ffff_ffff_ffff
    }
}

/// The report of one support point against an allowable pressure.
pub open spec fn spec_bearing_pressure(p: SupportPoint, allowable_pa: int, index: int) -> BearingPressure {
    let area = spec_contact_area_mm2(p.support_type);
    let pressure = spec_pressure_pa(p.load_kg as int, area);
    BearingPressure {
        support_index: index as usize,
        pressure_pa: pressure as i64,
        allowable_pa: allowable_pa as i64,
        is_safe: pressure <= allowable_pa,
        utilization_pm: spec_utilization_pm(pressure, allowable_pa) as i64,
    }
}

/// The ground bearing calculator.
pub struct GroundBearingCalculator;

impl GroundBearingCalculator {
    /// Analyze a ground configuration.
    ///
    /// Fails if and only if there is no support point, the safety factor is
    /// below 1.0, or some support has no positive contact area (the first
    /// such point is reported).  On success each support gets a pressure
    /// report, a support is safe exactly when its pressure does not exceed
    /// the allowable pressure (the soil capacity over the safety factor),
    /// and the whole configuration is safe exactly when every support is.
    pub fn analyze(config: &GroundConfiguration) -> (r: Result<GroundBearingAnalysis, String>)
        requires
            ground_config_wf(*config),
        ensures
            r is Ok <==> (config.support_points@.len() > 0 && config.safety_factor_pm >= 1000 && (
            forall|i: int| 0 <= i < config.support_points@.len() ==> spec_contact_area_mm2(
                (#[trigger] config.support_points@[i]).support_type) > 0)),
            r is Ok ==> ({
                let allowable = spec_allowable_pa(spec_soil_capacity_kpa(config.soil_type),
                    config.safety_factor_pm as int);
                let a = r->Ok_0;
                &&& a.soil_type == config.soil_type
                &&& a.bearing_pressures@.len() == config.support_points@.len()
                &&& forall|i: int| 0 <= i < config.support_points@.len()
                    ==> #[trigger] a.bearing_pressures@[i] == spec_bearing_pressure(
                    config.support_points@[i], allowable, i)
                &&& (a.is_safe <==> forall|i: int| 0 <= i < a.bearing_pressures@.len()
                    ==> (#[trigger] a.bearing_pressures@[i]).is_safe)
            }),
            r is Err ==> ({
                let msg = r->Err_0;
                &&& config.support_points@.len() == 0 ==> msg@ == "No support points provided"@
                &&& config.support_points@.len() > 0 && config.safety_factor_pm < 1000 ==> msg@
                    == "Safety factor must be >= 1.0"@
                &&& config.support_points@.len() > 0 && config.safety_factor_pm >= 1000
                    ==> exists|i: int|
                    0 <= i < config.support_points@.len() && spec_contact_area_mm2(
                        (#[trigger] config.support_points@[i]).support_type) <= 0 && (forall|
                        j: int,
                    |
                        0 <= j < i ==> spec_contact_area_mm2(
                            (#[trigger] config.support_points@[j]).support_type) > 0) && msg@
                        == "Support point "@ + crate::text::spec_udec(i) + " has invalid contact area"@
            }),
    {
        let n = config.support_points.len();
        if n == 0 {
            return Err(String::from_str("No support points provided"));
        }
        if config.safety_factor_pm < 1000 {
            return Err(String::from_str("Safety factor must be >= 1.0"));
        }
        let capacity_kpa = config.soil_type.allowable_bearing_capacity_kpa();
        proof {
            assert(0 <= (capacity_kpa as int) * 1_000_000 <= 10_000_000_000_000)
                by (nonlinear_arith)
                requires 0 <= capacity_kpa <= 10_000_000;
            vstd::arithmetic::div_mod::lemma_div_pos_is_pos(
                (capacity_kpa as int) * 1_000_000, config.safety_factor_pm as int);
            vstd::arithmetic::div_mod::lemma_div_is_ordered_by_denominator(
                (capacity_kpa as int) * 1_000_000, 1000, config.safety_factor_pm as int);
            vstd::arithmetic::div_mod::lemma_div_is_ordered(
                (capacity_kpa as int) * 1_000_000, 10_000_000_000_000, 1000);
            vstd::arithmetic::div_mod::lemma_div_multiples_vanish(10_000_000_000, 1000);
        }
        let allowable_pa: i64 = crate::num::div_floor_i64(capacity_kpa * 1_000_000,
            config.safety_factor_pm);
        let mut bearing_pressures: Vec<BearingPressure> = Vec::new();
        let mut all_safe = true;
        let ghost allowable_spec = spec_allowable_pa(spec_soil_capacity_kpa(config.soil_type),
            config.safety_factor_pm as int);
        let mut i: usize = 0;
        while i < n
            invariant
                0 <= i <= n,
                n == config.support_points@.len(),
                ground_config_wf(*config),
                config.safety_factor_pm >= 1000,
                allowable_pa == allowable_spec,
                0 <= allowable_pa <= 10_000_000_000,
                bearing_pressures@.len() == i,
                forall|j: int| 0 <= j < i ==> spec_contact_area_mm2(
                    (#[trigger] config.support_points@[j]).support_type) > 0,
                forall|j: int| 0 <= j < i ==> #[trigger] bearing_pressures@[j]
                    == spec_bearing_pressure(config.support_points@[j], allowable_spec as int, j),
                all_safe <==> (forall|j: int| 0 <= j < i
                    ==> (#[trigger] bearing_pressures@[j]).is_safe),
            decreases n - i,
        {
            let point = &config.support_points[i];
            let area = point.contact_area_mm2();
            if area <= 0 {
                let mut msg = String::from_str("Support point ");
                msg.append(udec_string(i as u64).as_str());
                msg.append(" has invalid contact area");
                return Err(msg);
            }
            proof {
                assert(0 <= (point.load_kg as int) * 9_810_000 <= 9_810_000_000_000_000_000)
                    by (nonlinear_arith)
                    requires 0 <= point.load_kg <= 1_000_000_000;
                vstd::arithmetic::div_mod::lemma_div_pos_is_pos(
                    (point.load_kg as int) * 9_810_000, area as int);
                vstd::arithmetic::div_mod::lemma_div_is_ordered_by_denominator(
                    (point.load_kg as int) * 9_810_000, 1, area as int);
                vstd::arithmetic::div_mod::lemma_div_basics((point.load_kg as int) * 9_810_000);
            }
            let pressure_pa: i64 = crate::num::div_floor_i64(point.load_kg * 9_810_000, area);
            let is_safe = pressure_pa <= allowable_pa;
            if !is_safe {
                all_safe = false;
            }
            let utilization_pm: i64 = if allowable_pa > 0 {
                proof {
                    assert(0 <= (pressure_pa as int) * 1000 <= 9_810_000_000_000_000_000_000)
                        by (nonlinear_arith)
                        requires 0 <= pressure_pa <= 9_810_000_000_000_000_000;
                    vstd::arithmetic::div_mod::lemma_div_pos_is_pos(
                        (pressure_pa as int) * 1000, allowable_pa as int);
                }
                let q = crate::num::div_floor_i128((pressure_pa as i128) * 1000,
                    allowable_pa as i128);
                if q > 0x7fff_ffff_ffff_ffff {
                    i64::MAX
                } else {
                    q as i64
                }
            } else if pressure_pa == 0 {
                0
            } else {
                i64::MAX
            };
            let ghost prev = bearing_pressures@;
            bearing_pressures.push(BearingPressure {
                support_index: i,
                pressure_pa,
                allowable_pa,
                is_safe,
                utilization_pm,
            });
            proof {
                assert(forall|j: int| 0 <= j < i ==> bearing_pressures@[j] == prev[j]);
                assert(bearing_pressures@[i as int].is_safe == is_safe);
            }
            i = i + 1;
        }
        Ok(GroundBearingAnalysis { is_safe: all_safe, soil_type: config.soil_type, bearing_pressures })
    }
}

/// The name of a pad material.
pub open spec fn spec_pad_material_name(m: PadMaterial) -> Seq<char> {
    match m {
        PadMaterial::Steel => "Steel"@,
        PadMaterial::Hardwood => "Hardwood"@,
        PadMaterial::Composite => "Composite"@,
    }
}

/// The name of a mat material.
pub open spec fn spec_mat_material_name(m: MatMaterial) -> Seq<char> {
    match m {
        MatMaterial::TimberMat => "TimberMat"@,
        MatMaterial::CompositeMat => "CompositeMat"@,
        MatMaterial::SteelPlate => "SteelPlate"@,
    }
}

/// The description of a support setup, dimensions in metres.
pub open spec fn spec_support_description(t: SupportType) -> Seq<char> {
    match t {
        SupportType::OutriggerPad { pad_diameter_mm, pad_material } => crate::text::spec_milli_1dp(
            pad_diameter_mm as int,
        ) + "m "@ + spec_pad_material_name(pad_material) + " pad"@,
        SupportType::Tire { .. } => "Tire support"@,
        SupportType::MatWithPad {
            mat_length_mm,
            mat_width_mm,
            mat_material,
            pad_diameter_mm,
            pad_material,
        } => crate::text::spec_milli_1dp(mat_length_mm as int) + "m x "@
            + crate::text::spec_milli_1dp(mat_width_mm as int) + "m "@ + spec_mat_material_name(
            mat_material,
        ) + " mat + "@ + crate::text::spec_milli_1dp(pad_diameter_mm as int) + "m "@
            + spec_pad_material_name(pad_material) + " pad"@,
        SupportType::Mat { mat_length_mm, mat_width_mm, mat_material } =>
            crate::text::spec_milli_1dp(mat_length_mm as int) + "m x "@
            + crate::text::spec_milli_1dp(mat_width_mm as int) + "m "@ + spec_mat_material_name(
            mat_material,
        ) + " mat"@,
    }
}

impl PadMaterial {
    /// The material's name.
    pub fn name(&self) -> (r: &'static str)
        ensures
            r@ == spec_pad_material_name(*self),
    {
        match self {
            PadMaterial::Steel => "Steel",
            PadMaterial::Hardwood => "Hardwood",
            PadMaterial::Composite => "Composite",
        }
    }
}

impl MatMaterial {
    /// The material's name.
    pub fn name(&self) -> (r: &'static str)
        ensures
            r@ == spec_mat_material_name(*self),
    {
        match self {
            MatMaterial::TimberMat => "TimberMat",
            MatMaterial::CompositeMat => "CompositeMat",
            MatMaterial::SteelPlate => "SteelPlate",
        }
    }
}

impl SupportType {
    /// A description of the support setup; the view of the result equals
    /// [`spec_support_description`].
    pub fn description(&self) -> (s: String)
        requires
            support_type_ok(*self),
        ensures
            s@ == spec_support_description(*self),
    {
        match self {
            SupportType::OutriggerPad { pad_diameter_mm, pad_material } => {
                let mut s = crate::text::milli_1dp_string(*pad_diameter_mm);
                s.append("m ");
                s.append(pad_material.name());
                s.append(" pad");
                s
            },
            SupportType::Tire { .. } => String::from_str("Tire support"),
            SupportType::MatWithPad {
                mat_length_mm,
                mat_width_mm,
                mat_material,
                pad_diameter_mm,
                pad_material,
            } => {
                let mut s = crate::text::milli_1dp_string(*mat_length_mm);
                s.append("m x ");
                s.append(crate::text::milli_1dp_string(*mat_width_mm).as_str());
                s.append("m ");
                s.append(mat_material.name());
                s.append(" mat + ");
                s.append(crate::text::milli_1dp_string(*pad_diameter_mm).as_str());
                s.append("m ");
                s.append(pad_material.name());
                s.append(" pad");
                s
            },
            SupportType::Mat { mat_length_mm, mat_width_mm, mat_material } => {
                let mut s = crate::text::milli_1dp_string(*mat_length_mm);
                s.append("m x ");
                s.append(crate::text::milli_1dp_string(*mat_width_mm).as_str());
                s.append("m ");
                s.append(mat_material.name());
                s.append(" mat");
                s
            },
        }
    }
}

/// Configuration of one crane mat; several can be stacked.
#[derive(Clone, Copy, Debug)]
pub struct CraneMat {
    pub material: MatMaterial,
    pub length_mm: i64,
    pub width_mm: i64,
    pub thickness_mm: i64,
    pub weight_kg: i64,
    /// How many identical mats are stacked.
    pub stacked_count: usize,
}

/// An outrigger pad, circular or rectangular, possibly on a mat stack.
#[derive(Clone, Debug)]
pub struct OutriggerPad {
    /// Diameter, for circular pads.
    pub diameter_mm: Option<i64>,
    /// Width, for rectangular pads.
    pub width_mm: Option<i64>,
    /// Length, for rectangular pads.
    pub length_mm: Option<i64>,
    /// The mats stacked under the pad, if any.
    pub mat_configuration: Option<Vec<CraneMat>>,
}

/// A field description of each soil type.
pub open spec fn spec_soil_description(t: SoilType) -> Seq<char> {
    match t {
        SoilType::SoftClay => "Easily penetrated several inches by the thumb. Can be molded by light finger pressure."@,
        SoilType::MediumClay => "Penetrated over (1/2 inch) 10mm by thumb with moderate effort. Molded by strong finger pressure."@,
        SoilType::StiffClay => "Indented about (1/2 inch) 10mm by thumb, but penetrated only with great effort. Readily indented by thumbnail."@,
        SoilType::HardClay => "Indented with difficulty by thumbnail. Cannot be indented with fingers but can be peeled with knife."@,
        SoilType::HardRock => "Massive rocks without laminations or defects, such as granite, trap, and diorite. They are unweathered, difficult to break with a hammer, and cannot be molded by the fingers."@,
        SoilType::MediumRock => "Slightly lower strength than hard rock, possibly with laminations, such as limestone and sandstone. They are still very strong and difficult to remove."@,
        SoilType::IntermediateRock => "Rock mass with possible discontinuities or slight weathering compared to medium rock. Includes residual deposits of shattered and broken bedrock or hard shale."@,
        SoilType::SoftRock => "Rocks may soften on exposure to air or water, can be removed by picking or spading, and fresh samples may be molded with substantial finger pressure. Includes partially weathered or highly jointed condition, such as uncemented shales and some sandstones. Can require pretreatment in some conditions."@,
        SoilType::DenseGravel => "Densely compacted gravel. Particles are tightly packed with minimal space between them, making them very stable and strong."@,
        SoilType::MediumGravel => "Moderately compacted gravel. Particles have some space between them, providing moderate stability."@,
        SoilType::LooseGravel => "Loose gravel, not compacted. Particles have large, open spaces between them, resulting in low stability and strength. Often needs to be pretreated."@,
        SoilType::DenseSand => "Densely packed sand. Highly stable, often characterized by a high number of blows per foot during a Standard Penetration Test (SPT)."@,
        SoilType::MediumSand => "Moderately packed sand. The Standard Penetration Test (SPT) blow count is in the medium range for sands, and often suitable for construction."@,
        SoilType::LooseSand => "Loosely packed sand. The Standard Penetration Test (SPT) blow count is very low, and the sand is prone to excessive settlement and not suitable for heavy loading without pretreatment."@,
        SoilType::DenseSilt => "Provides strong resistance to load and penetration. Often found in preloaded or naturally very compact conditions. Comparable to medium-dense sand"@,
        SoilType::MediumSilt => "Medium sediment. Offers moderate resistance to penetration and load. Often considered 'firm'."@,
        SoilType::LooseSilt => "Loose sediment. Exhibits high settlement potential under load and can be easily molded or crushed in fingers. Often requires pre-treatment before loading."@,
        SoilType::Peat => "Soft soil. Extremely low bearing capacity, high compressibility, low shear strength, and high organic and water content. Not suitable for loading without pre-treatment."@,
        SoilType::Custom { .. } => "Custom Bearing Capacity"@,
    }
}

impl SoilType {
    /// A field description of the soil type; the view of the result equals
    /// [`spec_soil_description`].
    pub fn description(&self) -> (r: &'static str)
        ensures
            r@ == spec_soil_description(*self),
    {
        match self {
            SoilType::SoftClay => "Easily penetrated several inches by the thumb. Can be molded by light finger pressure.",
            SoilType::MediumClay => "Penetrated over (1/2 inch) 10mm by thumb with moderate effort. Molded by strong finger pressure.",
            SoilType::StiffClay => "Indented about (1/2 inch) 10mm by thumb, but penetrated only with great effort. Readily indented by thumbnail.",
            SoilType::HardClay => "Indented with difficulty by thumbnail. Cannot be indented with fingers but can be peeled with knife.",
            SoilType::HardRock => "Massive rocks without laminations or defects, such as granite, trap, and diorite. They are unweathered, difficult to break with a hammer, and cannot be molded by the fingers.",
            SoilType::MediumRock => "Slightly lower strength than hard rock, possibly with laminations, such as limestone and sandstone. They are still very strong and difficult to remove.",
            SoilType::IntermediateRock => "Rock mass with possible discontinuities or slight weathering compared to medium rock. Includes residual deposits of shattered and broken bedrock or hard shale.",
            SoilType::SoftRock => "Rocks may soften on exposure to air or water, can be removed by picking or spading, and fresh samples may be molded with substantial finger pressure. Includes partially weathered or highly jointed condition, such as uncemented shales and some sandstones. Can require pretreatment in some conditions.",
            SoilType::DenseGravel => "Densely compacted gravel. Particles are tightly packed with minimal space between them, making them very stable and strong.",
            SoilType::MediumGravel => "Moderately compacted gravel. Particles have some space between them, providing moderate stability.",
            SoilType::LooseGravel => "Loose gravel, not compacted. Particles have large, open spaces between them, resulting in low stability and strength. Often needs to be pretreated.",
            SoilType::DenseSand => "Densely packed sand. Highly stable, often characterized by a high number of blows per foot during a Standard Penetration Test (SPT).",
            SoilType::MediumSand => "Moderately packed sand. The Standard Penetration Test (SPT) blow count is in the medium range for sands, and often suitable for construction.",
            SoilType::LooseSand => "Loosely packed sand. The Standard Penetration Test (SPT) blow count is very low, and the sand is prone to excessive settlement and not suitable for heavy loading without pretreatment.",
            SoilType::DenseSilt => "Provides strong resistance to load and penetration. Often found in preloaded or naturally very compact conditions. Comparable to medium-dense sand",
            SoilType::MediumSilt => "Medium sediment. Offers moderate resistance to penetration and load. Often considered 'firm'.",
            SoilType::LooseSilt => "Loose sediment. Exhibits high settlement potential under load and can be easily molded or crushed in fingers. Often requires pre-treatment before loading.",
            SoilType::Peat => "Soft soil. Extremely low bearing capacity, high compressibility, low shear strength, and high organic and water content. Not suitable for loading without pre-treatment.",
            SoilType::Custom { .. } => "Custom Bearing Capacity",
        }
    }
}

} // verus!
