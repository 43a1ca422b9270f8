//! The static crane catalog: a fixed, compiled-in set of named crane
//! specifications, each an immutable value.
//!
//! A [`CraneSpec`] is a catalog entry describing one crane model's physical
//! envelope; it is created once and never mutated.  Lengths are millimetres,
//! masses kilograms, angles millidegrees; hoist speeds are millimetres per
//! minute and swing speeds thousandths of a revolution per minute.

use vstd::prelude::*;
use crate::capacity::{capacity_chart_wf, spec_example_chart, CapacityChart};
use crate::counterweight::{CounterweightConfig, MAX_SLAB_COUNT, MAX_SLAB_KG, MAX_ARM_MM};
use crate::outriggers::{OutriggerSystem, MAX_OUTRIGGER_MM};

verus! {

/// The family a crane model belongs to.
#[derive(Clone, Copy, Debug, PartialEq, Eq, Structural)]
pub enum CraneType {
    /// Mobile crane with all-wheel drive.
    AllTerrain,
    /// Off-road mobile crane.
    RoughTerrain,
    /// Crane mounted on a truck chassis.
    TruckMounted,
    /// Tracked crane.
    Crawler,
    /// Fixed tower crane.
    Tower,
}

/// The display name of a crane type.
pub open spec fn spec_crane_type_name(t: CraneType) -> Seq<char> {
    match t {
        CraneType::AllTerrain => "All-Terrain"@,
        CraneType::RoughTerrain => "Rough Terrain"@,
        CraneType::TruckMounted => "Truck Mounted"@,
        CraneType::Crawler => "Crawler"@,
        CraneType::Tower => "Tower"@,
    }
}

impl CraneType {
    /// A display name for the crane type.
    pub fn display_name(&self) -> (r: &'static str)
        ensures
            r@ == spec_crane_type_name(*self),
    {
        match self {
            CraneType::AllTerrain => "All-Terrain",
            CraneType::RoughTerrain => "Rough Terrain",
            CraneType::TruckMounted => "Truck Mounted",
            CraneType::Crawler => "Crawler",
            CraneType::Tower => "Tower",
        }
    }
}

/// An immutable catalog entry for one crane model.
#[derive(Clone, Debug)]
pub struct CraneSpec {
    pub id: String,
    pub manufacturer: String,
    pub model: String,
    pub year: Option<u16>,
    pub crane_type: CraneType,
    pub base_weight_kg: i64,
    pub transport_weight_kg: i64,
    pub length_mm: i64,
    pub width_mm: i64,
    pub height_mm: i64,
    pub boom_length_min_mm: i64,
    pub boom_length_max_mm: i64,
    pub boom_sections: usize,
    pub boom_pivot_height_mm: i64,
    pub max_boom_angle_mdeg: i64,
    pub min_boom_angle_mdeg: i64,
    pub hoist_length_min_mm: i64,
    pub hoist_length_max_mm: i64,
    pub max_hoist_speed_mm_per_min: Option<i64>,
    pub max_capacity_kg: i64,
    pub max_radius_mm: i64,
    pub min_radius_mm: i64,
    pub max_tip_height_mm: i64,
    pub outrigger_base_width_mm: i64,
    pub outrigger_base_length_mm: i64,
    pub outrigger_max_extension_mm: i64,
    pub counterweight_slab_weight_kg: i64,
    pub counterweight_max_slabs: usize,
    pub counterweight_moment_arm_mm: i64,
    pub capacity_chart: CapacityChart,
    pub engine_power_kw: Option<i64>,
    pub max_swing_speed_milli_rpm: Option<i64>,
}

/// A catalog entry whose dimensions lie within the engine's bounds.
pub open spec fn crane_spec_wf(s: CraneSpec) -> bool {
    &&& 0 <= s.base_weight_kg <= 1_000_000_000
    &&& 0 <= s.transport_weight_kg <= 1_000_000_000
    &&& 0 <= s.boom_length_min_mm <= s.boom_length_max_mm <= 1_000_000
    &&& 0 <= s.boom_pivot_height_mm <= 1_000_000
    &&& 0 <= s.min_boom_angle_mdeg <= s.max_boom_angle_mdeg <= 90_000
    &&& 0 <= s.hoist_length_min_mm <= s.hoist_length_max_mm <= 1_000_000
    &&& 0 <= s.max_capacity_kg <= 1_000_000_000
    &&& 0 <= s.min_radius_mm <= s.max_radius_mm <= 1_000_000_000
    &&& 0 <= s.max_tip_height_mm <= 1_000_000_000
    &&& 0 <= s.outrigger_base_width_mm <= MAX_OUTRIGGER_MM
    &&& 0 <= s.outrigger_base_length_mm <= MAX_OUTRIGGER_MM
    &&& 0 <= s.outrigger_max_extension_mm <= MAX_OUTRIGGER_MM
    &&& 0 <= s.counterweight_slab_weight_kg <= MAX_SLAB_KG
    &&& s.counterweight_max_slabs <= MAX_SLAB_COUNT
    &&& 0 <= s.counterweight_moment_arm_mm <= MAX_ARM_MM
    &&& capacity_chart_wf(s.capacity_chart)
}

impl CraneSpec {
    /// All catalog entries, with pairwise distinct ids.
    pub fn all_specs() -> (r: Vec<CraneSpec>)
        ensures
            r@.len() == 8,
            forall|i: int| 0 <= i < 8 ==> crane_spec_wf(#[trigger] r@[i]),
            r@[0].id@ == "liebherr_ltm_1100_5_2"@,
            r@[1].id@ == "liebherr_ltm_1500_8_1"@,
            r@[2].id@ == "grove_gmk_5150l"@,
            r@[3].id@ == "grove_gmk_6300l"@,
            r@[4].id@ == "tadano_gr_600xl"@,
            r@[5].id@ == "tadano_gr_1000xl"@,
            r@[6].id@ == "terex_rt_780"@,
            r@[7].id@ == "link_belt_htc_8690"@,
            forall|i: int, j: int| 0 <= i < j < 8 ==> (#[trigger] r@[i].id@) != (
            #[trigger] r@[j].id@),
    {
        proof {
            reveal_strlit("liebherr_ltm_1100_5_2");
            reveal_strlit("liebherr_ltm_1500_8_1");
            reveal_strlit("grove_gmk_5150l");
            reveal_strlit("grove_gmk_6300l");
            reveal_strlit("tadano_gr_600xl");
            reveal_strlit("tadano_gr_1000xl");
            reveal_strlit("terex_rt_780");
            reveal_strlit("link_belt_htc_8690");
        }
        let mut v: Vec<CraneSpec> = Vec::new();
        v.push(Self::liebherr_ltm_1100());
        v.push(Self::liebherr_ltm_1500());
        v.push(Self::grove_gmk_5150());
        v.push(Self::grove_gmk_6300());
        v.push(Self::tadano_gr_600xl());
        v.push(Self::tadano_gr_1000xl());
        v.push(Self::terex_rt_780());
        v.push(Self::link_belt_htc_8690());
        proof {
            assert forall|i: int, j: int| 0 <= i < j < 8 implies (#[trigger] v@[i].id@) != (
            #[trigger] v@[j].id@) by {
                let a = v@[i].id@;
                let b = v@[j].id@;
                assert(a.len() != b.len() || a[0] != b[0] || a[10] != b[10] || a[14] != b[14]);
            };
        }
        v
    }

    /// Install a capacity chart, replacing the current one.  Reading chart
    /// texts is the caller's business; the parsers in the library turn them
    /// into chart systems.
    pub fn set_capacity_chart(&mut self, chart: CapacityChart)
        requires
            crane_spec_wf(*old(self)),
            capacity_chart_wf(chart),
        ensures
            crane_spec_wf(*final(self)),
            *final(self) == (CraneSpec { capacity_chart: chart, ..*old(self) }),
    {
        self.capacity_chart = chart;
    }

    /// The outrigger system this crane starts with.
    pub fn create_outrigger_system(&self) -> (r: OutriggerSystem)
        requires
            crane_spec_wf(*self),
        ensures
            crate::outriggers::outrigger_system_wf(r),
            r.crane_base_width_mm == self.outrigger_base_width_mm,
            r.crane_base_length_mm == self.outrigger_base_length_mm,
            r.all_required,
            forall|i: int| 0 <= i < 4 ==> (#[trigger] r.outriggers@[i]).deployment
                == crate::outriggers::OutriggerDeployment::Retracted,
    {
        OutriggerSystem::new(self.outrigger_base_width_mm, self.outrigger_base_length_mm,
            self.outrigger_max_extension_mm)
    }

    /// The counterweight configuration this crane starts with.
    pub fn create_counterweight_config(&self) -> (r: CounterweightConfig)
        requires
            crane_spec_wf(*self),
        ensures
            crate::counterweight::counterweight_wf(r),
            r.slabs@.len() == 0,
            r.standard_slab_weight_kg == self.counterweight_slab_weight_kg,
            r.max_slabs == self.counterweight_max_slabs,
            r.moment_arm_mm == self.counterweight_moment_arm_mm,
    {
        CounterweightConfig::new(self.counterweight_slab_weight_kg, self.counterweight_max_slabs,
            self.counterweight_moment_arm_mm)
    }

    /// Liebherr LTM 1100-5.2.
    pub fn liebherr_ltm_1100() -> (s: CraneSpec)
        ensures
            crane_spec_wf(s),
            s.id@ == "liebherr_ltm_1100_5_2"@,
            s.manufacturer@ == "Liebherr"@,
            s.model@ == "LTM 1100-5.2"@,
            s.year == Some(2020u16),
            s.crane_type == CraneType::AllTerrain,
            s.base_weight_kg == 48000,
            s.transport_weight_kg == 60000,
            s.length_mm == 13600 && s.width_mm == 2750 && s.height_mm == 3850,
            s.boom_length_min_mm == 15000 && s.boom_length_max_mm == 52000,
            s.boom_sections == 5usize,
            s.boom_pivot_height_mm == 3200,
            s.max_boom_angle_mdeg == 85000 && s.min_boom_angle_mdeg == 0,
            s.hoist_length_min_mm == 2000 && s.hoist_length_max_mm == 60000,
            s.max_hoist_speed_mm_per_min == Some(110000i64),
            s.max_capacity_kg == 100000,
            s.max_radius_mm == 48000 && s.min_radius_mm == 3000,
            s.max_tip_height_mm == 56000,
            s.outrigger_base_width_mm == 2750 && s.outrigger_base_length_mm == 3000,
            s.outrigger_max_extension_mm == 7100,
            s.counterweight_slab_weight_kg == 2500,
            s.counterweight_max_slabs == 16usize,
            s.counterweight_moment_arm_mm == 4500,
            s.engine_power_kw == Some(380i64),
            s.max_swing_speed_milli_rpm == Some(1800i64),
            spec_example_chart(s.capacity_chart),
    {
        CraneSpec {
            id: String::from_str("liebherr_ltm_1100_5_2"),
            manufacturer: String::from_str("Liebherr"),
            model: String::from_str("LTM 1100-5.2"),
            year: Some(2020),
            crane_type: CraneType::AllTerrain,
            base_weight_kg: 48000,
            transport_weight_kg: 60000,
            length_mm: 13600,
            width_mm: 2750,
            height_mm: 3850,
            boom_length_min_mm: 15000,
            boom_length_max_mm: 52000,
            boom_sections: 5,
            boom_pivot_height_mm: 3200,
            max_boom_angle_mdeg: 85000,
            min_boom_angle_mdeg: 0,
            hoist_length_min_mm: 2000,
            hoist_length_max_mm: 60000,
            max_hoist_speed_mm_per_min: Some(110000),
            max_capacity_kg: 100000,
            max_radius_mm: 48000,
            min_radius_mm: 3000,
            max_tip_height_mm: 56000,
            outrigger_base_width_mm: 2750,
            outrigger_base_length_mm: 3000,
            outrigger_max_extension_mm: 7100,
            counterweight_slab_weight_kg: 2500,
            counterweight_max_slabs: 16,
            counterweight_moment_arm_mm: 4500,
            capacity_chart: CapacityChart::example_liebherr_ltm_1100(),
            engine_power_kw: Some(380),
            max_swing_speed_milli_rpm: Some(1800),
        }
    }

    /// Liebherr LTM 1500-8.1.
    pub fn liebherr_ltm_1500() -> (s: CraneSpec)
        ensures
            crane_spec_wf(s),
            s.id@ == "liebherr_ltm_1500_8_1"@,
            s.manufacturer@ == "Liebherr"@,
            s.model@ == "LTM 1500-8.1"@,
            s.year == Some(2019u16),
            s.crane_type == CraneType::AllTerrain,
            s.base_weight_kg == 108000,
            s.transport_weight_kg == 132000,
            s.length_mm == 17800 && s.width_mm == 3000 && s.height_mm == 4000,
            s.boom_length_min_mm == 15400 && s.boom_length_max_mm == 84000,
            s.boom_sections == 8usize,
            s.boom_pivot_height_mm == 4200,
            s.max_boom_angle_mdeg == 85000 && s.min_boom_angle_mdeg == 0,
            s.hoist_length_min_mm == 3000 && s.hoist_length_max_mm == 100000,
            s.max_hoist_speed_mm_per_min == Some(145000i64),
            s.max_capacity_kg == 500000,
            s.max_radius_mm == 78000 && s.min_radius_mm == 3500,
            s.max_tip_height_mm == 91000,
            s.outrigger_base_width_mm == 3000 && s.outrigger_base_length_mm == 3500,
            s.outrigger_max_extension_mm == 9200,
            s.counterweight_slab_weight_kg == 5000,
            s.counterweight_max_slabs == 38usize,
            s.counterweight_moment_arm_mm == 6500,
            s.engine_power_kw == Some(680i64),
            s.max_swing_speed_milli_rpm == Some(1500i64),
            s.capacity_chart.charts@.len() == 0,
            s.capacity_chart.over_side_factor_pm == 850,
            s.capacity_chart.over_rear_factor_pm == 750,
            s.capacity_chart.dynamic_factor_pm == 850,
            s.capacity_chart.outrigger_intermediate_factor_pm == 850,
            s.capacity_chart.on_tires_factor_pm == 400,
    {
        CraneSpec {
            id: String::from_str("liebherr_ltm_1500_8_1"),
            manufacturer: String::from_str("Liebherr"),
            model: String::from_str("LTM 1500-8.1"),
            year: Some(2019),
            crane_type: CraneType::AllTerrain,
            base_weight_kg: 108000,
            transport_weight_kg: 132000,
            length_mm: 17800,
            width_mm: 3000,
            height_mm: 4000,
            boom_length_min_mm: 15400,
            boom_length_max_mm: 84000,
            boom_sections: 8,
            boom_pivot_height_mm: 4200,
            max_boom_angle_mdeg: 85000,
            min_boom_angle_mdeg: 0,
            hoist_length_min_mm: 3000,
            hoist_length_max_mm: 100000,
            max_hoist_speed_mm_per_min: Some(145000),
            max_capacity_kg: 500000,
            max_radius_mm: 78000,
            min_radius_mm: 3500,
            max_tip_height_mm: 91000,
            outrigger_base_width_mm: 3000,
            outrigger_base_length_mm: 3500,
            outrigger_max_extension_mm: 9200,
            counterweight_slab_weight_kg: 5000,
            counterweight_max_slabs: 38,
            counterweight_moment_arm_mm: 6500,
            capacity_chart: CapacityChart::new(),
            engine_power_kw: Some(680),
            max_swing_speed_milli_rpm: Some(1500),
        }
    }

    /// Grove GMK 5150L.
    pub fn grove_gmk_5150() -> (s: CraneSpec)
        ensures
            crane_spec_wf(s),
            s.id@ == "grove_gmk_5150l"@,
            s.manufacturer@ == "Grove"@,
            s.model@ == "GMK 5150L"@,
            s.year == Some(2019u16),
            s.crane_type == CraneType::AllTerrain,
            s.base_weight_kg == 60000,
            s.transport_weight_kg == 72000,
            s.length_mm == 15470 && s.width_mm == 2750 && s.height_mm == 3980,
            s.boom_length_min_mm == 15200 && s.boom_length_max_mm == 60000,
            s.boom_sections == 6usize,
            s.boom_pivot_height_mm == 3500,
            s.max_boom_angle_mdeg == 85000 && s.min_boom_angle_mdeg == 0,
            s.hoist_length_min_mm == 2000 && s.hoist_length_max_mm == 70000,
            s.max_hoist_speed_mm_per_min == Some(135000i64),
            s.max_capacity_kg == 150000,
            s.max_radius_mm == 54000 && s.min_radius_mm == 3000,
            s.max_tip_height_mm == 66000,
            s.outrigger_base_width_mm == 3000 && s.outrigger_base_length_mm == 3500,
            s.outrigger_max_extension_mm == 7500,
            s.counterweight_slab_weight_kg == 3000,
            s.counterweight_max_slabs == 20usize,
            s.counterweight_moment_arm_mm == 5000,
            s.engine_power_kw == Some(450i64),
            s.max_swing_speed_milli_rpm == Some(2000i64),
            s.capacity_chart.charts@.len() == 0,
            s.capacity_chart.over_side_factor_pm == 850,
            s.capacity_chart.over_rear_factor_pm == 750,
            s.capacity_chart.dynamic_factor_pm == 850,
            s.capacity_chart.outrigger_intermediate_factor_pm == 850,
            s.capacity_chart.on_tires_factor_pm == 400,
    {
        CraneSpec {
            id: String::from_str("grove_gmk_5150l"),
            manufacturer: String::from_str("Grove"),
            model: String::from_str("GMK 5150L"),
            year: Some(2019),
            crane_type: CraneType::AllTerrain,
            base_weight_kg: 60000,
            transport_weight_kg: 72000,
            length_mm: 15470,
            width_mm: 2750,
            height_mm: 3980,
            boom_length_min_mm: 15200,
            boom_length_max_mm: 60000,
            boom_sections: 6,
            boom_pivot_height_mm: 3500,
            max_boom_angle_mdeg: 85000,
            min_boom_angle_mdeg: 0,
            hoist_length_min_mm: 2000,
            hoist_length_max_mm: 70000,
            max_hoist_speed_mm_per_min: Some(135000),
            max_capacity_kg: 150000,
            max_radius_mm: 54000,
            min_radius_mm: 3000,
            max_tip_height_mm: 66000,
            outrigger_base_width_mm: 3000,
            outrigger_base_length_mm: 3500,
            outrigger_max_extension_mm: 7500,
            counterweight_slab_weight_kg: 3000,
            counterweight_max_slabs: 20,
            counterweight_moment_arm_mm: 5000,
            capacity_chart: CapacityChart::new(),
            engine_power_kw: Some(450),
            max_swing_speed_milli_rpm: Some(2000),
        }
    }

    /// Grove GMK 6300L.
    pub fn grove_gmk_6300() -> (s: CraneSpec)
        ensures
            crane_spec_wf(s),
            s.id@ == "grove_gmk_6300l"@,
            s.manufacturer@ == "Grove"@,
            s.model@ == "GMK 6300L"@,
            s.year == Some(2021u16),
            s.crane_type == CraneType::AllTerrain,
            s.base_weight_kg == 84000,
            s.transport_weight_kg == 108000,
            s.length_mm == 16700 && s.width_mm == 3000 && s.height_mm == 4000,
            s.boom_length_min_mm == 16000 && s.boom_length_max_mm == 80000,
            s.boom_sections == 7usize,
            s.boom_pivot_height_mm == 4000,
            s.max_boom_angle_mdeg == 85000 && s.min_boom_angle_mdeg == 0,
            s.hoist_length_min_mm == 3000 && s.hoist_length_max_mm == 90000,
            s.max_hoist_speed_mm_per_min == Some(150000i64),
            s.max_capacity_kg == 300000,
            s.max_radius_mm == 72000 && s.min_radius_mm == 3500,
            s.max_tip_height_mm == 88000,
            s.outrigger_base_width_mm == 3000 && s.outrigger_base_length_mm == 3800,
            s.outrigger_max_extension_mm == 8800,
            s.counterweight_slab_weight_kg == 4000,
            s.counterweight_max_slabs == 30usize,
            s.counterweight_moment_arm_mm == 6000,
            s.engine_power_kw == Some(580i64),
            s.max_swing_speed_milli_rpm == Some(1600i64),
            s.capacity_chart.charts@.len() == 0,
            s.capacity_chart.over_side_factor_pm == 850,
            s.capacity_chart.over_rear_factor_pm == 750,
            s.capacity_chart.dynamic_factor_pm == 850,
            s.capacity_chart.outrigger_intermediate_factor_pm == 850,
            s.capacity_chart.on_tires_factor_pm == 400,
    {
        CraneSpec {
            id: String::from_str("grove_gmk_6300l"),
            manufacturer: String::from_str("Grove"),
            model: String::from_str("GMK 6300L"),
            year: Some(2021),
            crane_type: CraneType::AllTerrain,
            base_weight_kg: 84000,
            transport_weight_kg: 108000,
            length_mm: 16700,
            width_mm: 3000,
            height_mm: 4000,
            boom_length_min_mm: 16000,
            boom_length_max_mm: 80000,
            boom_sections: 7,
            boom_pivot_height_mm: 4000,
            max_boom_angle_mdeg: 85000,
            min_boom_angle_mdeg: 0,
            hoist_length_min_mm: 3000,
            hoist_length_max_mm: 90000,
            max_hoist_speed_mm_per_min: Some(150000),
            max_capacity_kg: 300000,
            max_radius_mm: 72000,
            min_radius_mm: 3500,
            max_tip_height_mm: 88000,
            outrigger_base_width_mm: 3000,
            outrigger_base_length_mm: 3800,
            outrigger_max_extension_mm: 8800,
            counterweight_slab_weight_kg: 4000,
            counterweight_max_slabs: 30,
            counterweight_moment_arm_mm: 6000,
            capacity_chart: CapacityChart::new(),
            engine_power_kw: Some(580),
            max_swing_speed_milli_rpm: Some(1600),
        }
    }

    /// Tadano GR-600XL.
    pub fn tadano_gr_600xl() -> (s: CraneSpec)
        ensures
            crane_spec_wf(s),
            s.id@ == "tadano_gr_600xl"@,
            s.manufacturer@ == "Tadano"@,
            s.model@ == "GR-600XL"@,
            s.year == Some(2021u16),
            s.crane_type == CraneType::RoughTerrain,
            s.base_weight_kg == 36000,
            s.transport_weight_kg == 42000,
            s.length_mm == 11500 && s.width_mm == 2490 && s.height_mm == 3630,
            s.boom_length_min_mm == 10900 && s.boom_length_max_mm == 42700,
            s.boom_sections == 4usize,
            s.boom_pivot_height_mm == 2800,
            s.max_boom_angle_mdeg == 82000 && s.min_boom_angle_mdeg == 0,
            s.hoist_length_min_mm == 1500 && s.hoist_length_max_mm == 50000,
            s.max_hoist_speed_mm_per_min == Some(95000i64),
            s.max_capacity_kg == 60000,
            s.max_radius_mm == 40000 && s.min_radius_mm == 2500,
            s.max_tip_height_mm == 47000,
            s.outrigger_base_width_mm == 2490 && s.outrigger_base_length_mm == 2800,
            s.outrigger_max_extension_mm == 5900,
            s.counterweight_slab_weight_kg == 2000,
            s.counterweight_max_slabs == 10usize,
            s.counterweight_moment_arm_mm == 3800,
            s.engine_power_kw == Some(275i64),
            s.max_swing_speed_milli_rpm == Some(1500i64),
            s.capacity_chart.charts@.len() == 0,
            s.capacity_chart.over_side_factor_pm == 850,
            s.capacity_chart.over_rear_factor_pm == 750,
            s.capacity_chart.dynamic_factor_pm == 850,
            s.capacity_chart.outrigger_intermediate_factor_pm == 850,
            s.capacity_chart.on_tires_factor_pm == 400,
    {
        CraneSpec {
            id: String::from_str("tadano_gr_600xl"),
            manufacturer: String::from_str("Tadano"),
            model: String::from_str("GR-600XL"),
            year: Some(2021),
            crane_type: CraneType::RoughTerrain,
            base_weight_kg: 36000,
            transport_weight_kg: 42000,
            length_mm: 11500,
            width_mm: 2490,
            height_mm: 3630,
            boom_length_min_mm: 10900,
            boom_length_max_mm: 42700,
            boom_sections: 4,
            boom_pivot_height_mm: 2800,
            max_boom_angle_mdeg: 82000,
            min_boom_angle_mdeg: 0,
            hoist_length_min_mm: 1500,
            hoist_length_max_mm: 50000,
            max_hoist_speed_mm_per_min: Some(95000),
            max_capacity_kg: 60000,
            max_radius_mm: 40000,
            min_radius_mm: 2500,
            max_tip_height_mm: 47000,
            outrigger_base_width_mm: 2490,
            outrigger_base_length_mm: 2800,
            outrigger_max_extension_mm: 5900,
            counterweight_slab_weight_kg: 2000,
            counterweight_max_slabs: 10,
            counterweight_moment_arm_mm: 3800,
            capacity_chart: CapacityChart::new(),
            engine_power_kw: Some(275),
            max_swing_speed_milli_rpm: Some(1500),
        }
    }

    /// Tadano GR-1000XL.
    pub fn tadano_gr_1000xl() -> (s: CraneSpec)
        ensures
            crane_spec_wf(s),
            s.id@ == "tadano_gr_1000xl"@,
            s.manufacturer@ == "Tadano"@,
            s.model@ == "GR-1000XL"@,
            s.year == Some(2020u16),
            s.crane_type == CraneType::RoughTerrain,
            s.base_weight_kg == 52000,
            s.transport_weight_kg == 64000,
            s.length_mm == 13200 && s.width_mm == 2990 && s.height_mm == 3830,
            s.boom_length_min_mm == 13700 && s.boom_length_max_mm == 50000,
            s.boom_sections == 5usize,
            s.boom_pivot_height_mm == 3100,
            s.max_boom_angle_mdeg == 83000 && s.min_boom_angle_mdeg == 0,
            s.hoist_length_min_mm == 2000 && s.hoist_length_max_mm == 65000,
            s.max_hoist_speed_mm_per_min == Some(120000i64),
            s.max_capacity_kg == 100000,
            s.max_radius_mm == 46000 && s.min_radius_mm == 3000,
            s.max_tip_height_mm == 56000,
            s.outrigger_base_width_mm == 2990 && s.outrigger_base_length_mm == 3200,
            s.outrigger_max_extension_mm == 7300,
            s.counterweight_slab_weight_kg == 2800,
            s.counterweight_max_slabs == 14usize,
            s.counterweight_moment_arm_mm == 4300,
            s.engine_power_kw == Some(365i64),
            s.max_swing_speed_milli_rpm == Some(1700i64),
            s.capacity_chart.charts@.len() == 0,
            s.capacity_chart.over_side_factor_pm == 850,
            s.capacity_chart.over_rear_factor_pm == 750,
            s.capacity_chart.dynamic_factor_pm == 850,
            s.capacity_chart.outrigger_intermediate_factor_pm == 850,
            s.capacity_chart.on_tires_factor_pm == 400,
    {
        CraneSpec {
            id: String::from_str("tadano_gr_1000xl"),
            manufacturer: String::from_str("Tadano"),
            model: String::from_str("GR-1000XL"),
            year: Some(2020),
            crane_type: CraneType::RoughTerrain,
            base_weight_kg: 52000,
            transport_weight_kg: 64000,
            length_mm: 13200,
            width_mm: 2990,
            height_mm: 3830,
            boom_length_min_mm: 13700,
            boom_length_max_mm: 50000,
            boom_sections: 5,
            boom_pivot_height_mm: 3100,
            max_boom_angle_mdeg: 83000,
            min_boom_angle_mdeg: 0,
            hoist_length_min_mm: 2000,
            hoist_length_max_mm: 65000,
            max_hoist_speed_mm_per_min: Some(120000),
            max_capacity_kg: 100000,
            max_radius_mm: 46000,
            min_radius_mm: 3000,
            max_tip_height_mm: 56000,
            outrigger_base_width_mm: 2990,
            outrigger_base_length_mm: 3200,
            outrigger_max_extension_mm: 7300,
            counterweight_slab_weight_kg: 2800,
            counterweight_max_slabs: 14,
            counterweight_moment_arm_mm: 4300,
            capacity_chart: CapacityChart::new(),
            engine_power_kw: Some(365),
            max_swing_speed_milli_rpm: Some(1700),
        }
    }

    /// Terex RT 780.
    pub fn terex_rt_780() -> (s: CraneSpec)
        ensures
            crane_spec_wf(s),
            s.id@ == "terex_rt_780"@,
            s.manufacturer@ == "Terex"@,
            s.model@ == "RT 780"@,
            s.year == Some(2022u16),
            s.crane_type == CraneType::RoughTerrain,
            s.base_weight_kg == 43000,
            s.transport_weight_kg == 52000,
            s.length_mm == 12300 && s.width_mm == 2900 && s.height_mm == 3760,
            s.boom_length_min_mm == 11900 && s.boom_length_max_mm == 47200,
            s.boom_sections == 5usize,
            s.boom_pivot_height_mm == 3000,
            s.max_boom_angle_mdeg == 82000 && s.min_boom_angle_mdeg == 0,
            s.hoist_length_min_mm == 2000 && s.hoist_length_max_mm == 55000,
            s.max_hoist_speed_mm_per_min == Some(106000i64),
            s.max_capacity_kg == 75000,
            s.max_radius_mm == 44000 && s.min_radius_mm == 2800,
            s.max_tip_height_mm == 52000,
            s.outrigger_base_width_mm == 2900 && s.outrigger_base_length_mm == 3100,
            s.outrigger_max_extension_mm == 6700,
            s.counterweight_slab_weight_kg == 2300,
            s.counterweight_max_slabs == 12usize,
            s.counterweight_moment_arm_mm == 4000,
            s.engine_power_kw == Some(335i64),
            s.max_swing_speed_milli_rpm == Some(1600i64),
            s.capacity_chart.charts@.len() == 0,
            s.capacity_chart.over_side_factor_pm == 850,
            s.capacity_chart.over_rear_factor_pm == 750,
            s.capacity_chart.dynamic_factor_pm == 850,
            s.capacity_chart.outrigger_intermediate_factor_pm == 850,
            s.capacity_chart.on_tires_factor_pm == 400,
    {
        CraneSpec {
            id: String::from_str("terex_rt_780"),
            manufacturer: String::from_str("Terex"),
            model: String::from_str("RT 780"),
            year: Some(2022),
            crane_type: CraneType::RoughTerrain,
            base_weight_kg: 43000,
            transport_weight_kg: 52000,
            length_mm: 12300,
            width_mm: 2900,
            height_mm: 3760,
            boom_length_min_mm: 11900,
            boom_length_max_mm: 47200,
            boom_sections: 5,
            boom_pivot_height_mm: 3000,
            max_boom_angle_mdeg: 82000,
            min_boom_angle_mdeg: 0,
            hoist_length_min_mm: 2000,
            hoist_length_max_mm: 55000,
            max_hoist_speed_mm_per_min: Some(106000),
            max_capacity_kg: 75000,
            max_radius_mm: 44000,
            min_radius_mm: 2800,
            max_tip_height_mm: 52000,
            outrigger_base_width_mm: 2900,
            outrigger_base_length_mm: 3100,
            outrigger_max_extension_mm: 6700,
            counterweight_slab_weight_kg: 2300,
            counterweight_max_slabs: 12,
            counterweight_moment_arm_mm: 4000,
            capacity_chart: CapacityChart::new(),
            engine_power_kw: Some(335),
            max_swing_speed_milli_rpm: Some(1600),
        }
    }

    /// Link-Belt HTC-8690.
    pub fn link_belt_htc_8690() -> (s: CraneSpec)
        ensures
            crane_spec_wf(s),
            s.id@ == "link_belt_htc_8690"@,
            s.manufacturer@ == "Link-Belt"@,
            s.model@ == "HTC-8690"@,
            s.year == Some(2021u16),
            s.crane_type == CraneType::TruckMounted,
            s.base_weight_kg == 48500,
            s.transport_weight_kg == 58000,
            s.length_mm == 13100 && s.width_mm == 2590 && s.height_mm == 3810,
            s.boom_length_min_mm == 12800 && s.boom_length_max_mm == 50300,
            s.boom_sections == 5usize,
            s.boom_pivot_height_mm == 3000,
            s.max_boom_angle_mdeg == 83000 && s.min_boom_angle_mdeg == 0,
            s.hoist_length_min_mm == 2000 && s.hoist_length_max_mm == 60000,
            s.max_hoist_speed_mm_per_min == Some(115000i64),
            s.max_capacity_kg == 90000,
            s.max_radius_mm == 46000 && s.min_radius_mm == 2800,
            s.max_tip_height_mm == 55000,
            s.outrigger_base_width_mm == 2590 && s.outrigger_base_length_mm == 3000,
            s.outrigger_max_extension_mm == 7000,
            s.counterweight_slab_weight_kg == 2700,
            s.counterweight_max_slabs == 13usize,
            s.counterweight_moment_arm_mm == 4200,
            s.engine_power_kw == Some(355i64),
            s.max_swing_speed_milli_rpm == Some(1700i64),
            s.capacity_chart.charts@.len() == 0,
            s.capacity_chart.over_side_factor_pm == 850,
            s.capacity_chart.over_rear_factor_pm == 750,
            s.capacity_chart.dynamic_factor_pm == 850,
            s.capacity_chart.outrigger_intermediate_factor_pm == 850,
            s.capacity_chart.on_tires_factor_pm == 400,
    {
        CraneSpec {
            id: String::from_str("link_belt_htc_8690"),
            manufacturer: String::from_str("Link-Belt"),
            model: String::from_str("HTC-8690"),
            year: Some(2021),
            crane_type: CraneType::TruckMounted,
            base_weight_kg: 48500,
            transport_weight_kg: 58000,
            length_mm: 13100,
            width_mm: 2590,
            height_mm: 3810,
            boom_length_min_mm: 12800,
            boom_length_max_mm: 50300,
            boom_sections: 5,
            boom_pivot_height_mm: 3000,
            max_boom_angle_mdeg: 83000,
            min_boom_angle_mdeg: 0,
            hoist_length_min_mm: 2000,
            hoist_length_max_mm: 60000,
            max_hoist_speed_mm_per_min: Some(115000),
            max_capacity_kg: 90000,
            max_radius_mm: 46000,
            min_radius_mm: 2800,
            max_tip_height_mm: 55000,
            outrigger_base_width_mm: 2590,
            outrigger_base_length_mm: 3000,
            outrigger_max_extension_mm: 7000,
            counterweight_slab_weight_kg: 2700,
            counterweight_max_slabs: 13,
            counterweight_moment_arm_mm: 4200,
            capacity_chart: CapacityChart::new(),
            engine_power_kw: Some(355),
            max_swing_speed_milli_rpm: Some(1700),
        }
    }
}

} // verus!
