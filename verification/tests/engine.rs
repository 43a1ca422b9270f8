use crane_core::capacity::CapacityChart;
use crane_core::chart::LoadChart;
use crane_core::configuration::CraneConfiguration;
use crane_core::counterweight::CounterweightConfig;
use crane_core::errors::CraneConfigError;
use crane_core::geom::{Point3Mm, Vec3Mm};
use crane_core::ground::{
    GroundBearingCalculator, GroundConfiguration, MatMaterial, PadMaterial, SoilType,
    SupportPoint, SupportType,
};
use crane_core::kinematics;
use crane_core::outriggers::{OutriggerDeployment, OutriggerPosition, OutriggerSystem};
use crane_core::parse::{CapacityChartBuilder, LoadChartParser};
use crane_core::rigging::{
    DynamicFactors, HitchType, Load, RiggingCalculator, RiggingConfiguration, RiggingDesigner,
    Sling, SlingMaterial, SlingSpec, WireRopeGrade,
};
use crane_core::spec_catalog::{CraneSpec, CraneType};
use crane_core::trig;

fn test_sling(attach: Point3Mm, hook: Point3Mm, rated_kg: i64) -> Sling {
    Sling {
        spec: SlingSpec {
            id: String::from("s"),
            material: SlingMaterial::WireRope { grade: WireRopeGrade::ImprovedPlowSteel },
            diameter_mm: Some(20),
            width_mm: None,
            length_mm: 10_000,
            rated_capacity_kg: rated_kg,
            safety_factor_pm: 5_000,
        },
        hitch_type: HitchType::Vertical,
        attachment_point: attach,
        hook_point: hook,
        angle_from_vertical_mdeg: None,
        tension_kg: None,
    }
}

fn test_load(weight_kg: i64) -> Load {
    Load {
        weight_kg,
        center_of_gravity: Point3Mm { x: 0, y: 0, z: 0 },
        dimensions: Vec3Mm { x: 4_000, y: 2_000, z: 2_000 },
        pick_points: Vec::new(),
    }
}

#[test]
fn test_load_chart_interpolation() {
    let mut chart = LoadChart::new(30_000);
    chart.add_point(3_000, 100_000);
    chart.add_point(10_000, 40_000);
    assert_eq!(chart.get_capacity_at_radius(3_000), Some(100_000));
    let mid = chart.get_capacity_at_radius(6_500).unwrap();
    assert!((mid - 70_000).abs() <= 1);
}

#[test]
fn test_chart_clamps_beyond_range() {
    let mut chart = LoadChart::new(30_000);
    chart.add_point(3_000, 100_000);
    chart.add_point(10_000, 40_000);
    assert_eq!(chart.get_capacity_at_radius(30_000), Some(40_000));
    assert_eq!(chart.get_capacity_at_radius(1_000), Some(100_000));
    assert_eq!(LoadChart::new(30_000).get_capacity_at_radius(5_000), None);
}

#[test]
fn test_swing_factor() {
    let chart = CapacityChart::new();
    assert_eq!(chart.get_swing_factor_pm(0), 1000);
    assert_eq!(chart.get_swing_factor_pm(30_000), 1000);
    assert_eq!(chart.get_swing_factor_pm(90_000), 850);
    assert_eq!(chart.get_swing_factor_pm(270_000), 850);
    assert_eq!(chart.get_swing_factor_pm(180_000), 750);
}

#[test]
fn test_capacity_interpolation_between_booms() {
    let mut chart = CapacityChart::new();
    let mut chart_30 = LoadChart::new(30_000);
    chart_30.add_point(10_000, 100_000);
    let mut chart_40 = LoadChart::new(40_000);
    chart_40.add_point(10_000, 80_000);
    chart.add_chart(chart_30);
    chart.add_chart(chart_40);
    let capacity = chart.get_capacity_interpolated(35_000, 10_000).unwrap();
    assert!((capacity - 90_000).abs() <= 1);
}

#[test]
fn test_boom_angle_calculation() {
    // a target whose rise over run is tan(60 degrees)
    let angle = kinematics::calculate_boom_angle_for_height(30_000, 10_000, 10_321, 3_000, 10_000);
    assert!(angle.is_some());
    let angle = angle.unwrap();
    assert!((angle - 60_000).abs() <= 1_000);
}

#[test]
fn test_unreachable_target() {
    let angle = kinematics::calculate_boom_angle_for_height(30_000, 50_000, 50_000, 3_000, 10_000);
    assert!(angle.is_none());
}

#[test]
fn test_hoist_length_calculation() {
    assert_eq!(kinematics::calculate_hoist_length_for_height(30_000, 15_000), 15_000);
    assert_eq!(kinematics::calculate_hoist_length_for_height(10_000, 20_000), 0);
}

#[test]
fn test_hook_position_vertical_boom() {
    let hook = kinematics::calculate_hook_position(
        Point3Mm { x: 0, y: 0, z: 0 }, 30_000, 90_000, 0, 3_000, 10_000);
    assert!(hook.x.abs() <= 100);
    assert!(hook.y.abs() <= 100);
    assert!((hook.z - 23_000).abs() <= 100);
}

#[test]
fn test_hook_position_horizontal_boom() {
    let hook = kinematics::calculate_hook_position(
        Point3Mm { x: 0, y: 0, z: 0 }, 30_000, 0, 0, 3_000, 5_000);
    assert!(hook.x.abs() <= 100);
    assert!((hook.y - 30_000).abs() <= 100);
    assert!((hook.z + 2_000).abs() <= 100);
}

#[test]
fn test_swing_path_generation() {
    let path = kinematics::calculate_swing_path(
        Point3Mm { x: 0, y: 0, z: 0 }, 30_000, 45_000, 0, 90_000, 3_000, 10_000, 10);
    assert_eq!(path.len(), 10);
    assert!(path[0].x.abs() <= 100);
    assert!(path[0].y > 0);
    assert!(path[9].x > 0);
    assert!(path[9].y.abs() <= 100);
}

#[test]
fn test_clearance_check_clear() {
    let path = vec![
        Point3Mm { x: 0, y: 0, z: 10_000 },
        Point3Mm { x: 1_000, y: 0, z: 10_000 },
        Point3Mm { x: 2_000, y: 0, z: 10_000 },
    ];
    let load_dims = Vec3Mm { x: 2_000, y: 2_000, z: 2_000 };
    let obs_dims = Vec3Mm { x: 3_000, y: 3_000, z: 3_000 };
    let obstacle = Point3Mm { x: 10_000, y: 10_000, z: 5_000 };
    assert!(kinematics::check_clearance(&path, load_dims, obstacle, obs_dims, 500));
}

#[test]
fn test_clearance_check_collision() {
    let path = vec![
        Point3Mm { x: 0, y: 0, z: 10_000 },
        Point3Mm { x: 1_000, y: 0, z: 10_000 },
        Point3Mm { x: 2_000, y: 0, z: 10_000 },
    ];
    let load_dims = Vec3Mm { x: 2_000, y: 2_000, z: 2_000 };
    let obs_dims = Vec3Mm { x: 3_000, y: 3_000, z: 3_000 };
    let obstacle = Point3Mm { x: 1_000, y: 0, z: 8_000 };
    assert!(!kinematics::check_clearance(&path, load_dims, obstacle, obs_dims, 500));
}

#[test]
fn test_trig_values() {
    assert_eq!(trig::cos_mdeg(60_000), 500_000);
    assert_eq!(trig::cos_mdeg(0), 1_000_000);
    assert_eq!(trig::cos_mdeg(90_000), 0);
    assert_eq!(trig::sin_mdeg(30_000), 500_000);
    assert_eq!(trig::acos_mdeg(500_000), 60_000);
}

#[test]
fn test_ground_bearing_pressure() {
    let point = SupportPoint {
        position: Point3Mm { x: 0, y: 0, z: 0 },
        load_kg: 10_000,
        support_type: SupportType::Mat {
            mat_length_mm: 1_000,
            mat_width_mm: 1_000,
            mat_material: MatMaterial::TimberMat,
        },
    };
    let config = GroundConfiguration {
        support_points: vec![point],
        soil_type: SoilType::DenseSand,
        safety_factor_pm: 2_000,
    };
    let analysis = GroundBearingCalculator::analyze(&config).unwrap();
    // 10 t over one square metre: about 98.1 kPa
    assert_eq!(analysis.bearing_pressures[0].pressure_pa, 98_100);
    assert_eq!(analysis.bearing_pressures[0].allowable_pa, 300_000);
    assert!(analysis.bearing_pressures[0].is_safe);
    assert!(analysis.is_safe);
}

#[test]
fn test_ground_bearing_unsafe() {
    let point = SupportPoint::with_pad(Point3Mm { x: 0, y: 0, z: 0 }, 100_000, 600,
        PadMaterial::Steel);
    let config = GroundConfiguration {
        support_points: vec![point],
        soil_type: SoilType::Peat,
        safety_factor_pm: 2_000,
    };
    let analysis = GroundBearingCalculator::analyze(&config).unwrap();
    assert!(!analysis.is_safe);
}

#[test]
fn test_ground_bearing_errors() {
    let config = GroundConfiguration {
        support_points: Vec::new(),
        soil_type: SoilType::DenseSand,
        safety_factor_pm: 2_000,
    };
    assert!(GroundBearingCalculator::analyze(&config).is_err());
    let point = SupportPoint::with_pad(Point3Mm { x: 0, y: 0, z: 0 }, 1_000, 600,
        PadMaterial::Steel);
    let config = GroundConfiguration {
        support_points: vec![point],
        soil_type: SoilType::DenseSand,
        safety_factor_pm: 500,
    };
    assert!(GroundBearingCalculator::analyze(&config).is_err());
}

#[test]
fn test_counterweight_slab_count() {
    let mut cw = CounterweightConfig::new(2_500, 16, 4_500);
    assert!(cw.set_slab_count(5).is_ok());
    assert_eq!(cw.get_slab_count(), 5);
    assert_eq!(cw.get_total_weight_kg(), 12_500);
    assert!(cw.set_slab_count(17).is_err());
    assert_eq!(cw.get_slab_count(), 5);
    assert!(cw.add_slab().is_ok());
    assert_eq!(cw.get_slab_count(), 6);
}

#[test]
fn test_all_deployed() {
    let mut system = OutriggerSystem::new(2_750, 3_000, 7_100);
    assert!(!system.all_deployed());
    let positions = OutriggerPosition::all();
    for (i, p) in positions.iter().enumerate() {
        system.set_deployment(*p, OutriggerDeployment::SetDown { jack_extension_mm: 500 });
        if i < 3 {
            assert!(!system.all_deployed());
        }
    }
    assert!(system.all_deployed());
}

#[test]
fn test_support_area() {
    let mut system = OutriggerSystem::new(2_750, 3_000, 7_100);
    assert_eq!(system.calculate_support_area(), 0);
    system.preset_max_extension();
    assert!(system.calculate_support_area() > 0);
}

#[test]
fn test_crane_configuration_capacity() {
    let spec = CraneSpec::liebherr_ltm_1100();
    assert_eq!(spec.crane_type, CraneType::AllTerrain);
    let mut config = CraneConfiguration::new(spec);
    config.outriggers.preset_max_extension();
    config.counterweight.set_slab_count(4).unwrap();
    assert_eq!(config.get_radius(), 15_000);
    // chart 30 m at 15 m radius: 25 000 kg, fully deployed, front quadrant
    let capacity = config.get_current_capacity().unwrap();
    assert_eq!(capacity, 25_000);
    assert_eq!(config.can_lift(10_000).unwrap(), true);
    assert_eq!(config.can_lift(20_000).unwrap(), false);
    assert!(matches!(config.can_lift(30_000),
        Err(CraneConfigError::LoadExceedsCapacity { .. })));
    assert!(config.validate().is_ok());
}

#[test]
fn test_crane_configuration_on_tires() {
    let spec = CraneSpec::liebherr_ltm_1100();
    let config = CraneConfiguration::new(spec);
    // outriggers retracted: on tires, heavily de-rated
    let capacity = config.get_current_capacity().unwrap();
    // 25 000 kg, intermediate-outrigger factor 850, on-tires factor 400
    assert_eq!(capacity, 25_000 * 850 / 1000 * 400 / 1000);
}

#[test]
fn test_single_sling_tension() {
    let load = test_load(10_000);
    let slings = vec![test_sling(Point3Mm { x: 0, y: 0, z: 0 },
        Point3Mm { x: 0, y: 0, z: 5_000 }, 20_000)];
    let analyses = RiggingCalculator::calculate_sling_tensions(&load, &slings,
        Point3Mm { x: 0, y: 0, z: 5_000 }).unwrap();
    assert_eq!(analyses.len(), 1);
    assert_eq!(analyses[0].tension_kg, 10_000);
    assert!(analyses[0].angle_from_vertical_mdeg <= 1_000);
    assert!(analyses[0].is_safe);
}

#[test]
fn test_symmetric_two_point_lift() {
    let load = test_load(10_000);
    let hook = Point3Mm { x: 0, y: 0, z: 5_000 };
    let slings = vec![
        test_sling(Point3Mm { x: -2_000, y: 0, z: 0 }, hook, 20_000),
        test_sling(Point3Mm { x: 2_000, y: 0, z: 0 }, hook, 20_000),
    ];
    let tensions = RiggingCalculator::solve_two_sling_system(&load, &slings).unwrap();
    // a symmetric lift of a centred load splits evenly
    assert_eq!(tensions[0], tensions[1]);
    assert!(tensions[0] >= 5_000);
    assert!((tensions[0] - 5_385).abs() <= 50);
}

#[test]
fn test_symmetric_four_point_lift() {
    let load = test_load(8_000);
    let hook = Point3Mm { x: 0, y: 0, z: 4_000 };
    let slings = vec![
        test_sling(Point3Mm { x: 2_000, y: 1_000, z: 0 }, hook, 20_000),
        test_sling(Point3Mm { x: 2_000, y: -1_000, z: 0 }, hook, 20_000),
        test_sling(Point3Mm { x: -2_000, y: 1_000, z: 0 }, hook, 20_000),
        test_sling(Point3Mm { x: -2_000, y: -1_000, z: 0 }, hook, 20_000),
    ];
    let tensions = RiggingCalculator::solve_multi_sling_system(&load, &slings).unwrap();
    assert_eq!(tensions.len(), 4);
    // even distribution, up to the rounding of the scaled unit directions
    for t in &tensions {
        assert!((*t - tensions[0]).abs() <= 20, "tensions {:?}", tensions);
        assert!(*t > 2_000);
    }
}

#[test]
fn test_coplanar_three_sling_error() {
    let load = test_load(9_000);
    // three parallel vertical slings: no solid angle, explicitly unsolvable
    let slings = vec![
        test_sling(Point3Mm { x: -2_000, y: 0, z: 0 }, Point3Mm { x: -2_000, y: 0, z: 4_000 },
            20_000),
        test_sling(Point3Mm { x: 0, y: 0, z: 0 }, Point3Mm { x: 0, y: 0, z: 4_000 }, 20_000),
        test_sling(Point3Mm { x: 2_000, y: 0, z: 0 }, Point3Mm { x: 2_000, y: 0, z: 4_000 },
            20_000),
    ];
    let r = RiggingCalculator::solve_three_sling_system(&load, &slings);
    assert!(r.is_err());
}

#[test]
fn test_three_sling_tripod() {
    let load = test_load(9_000);
    let hook = Point3Mm { x: 0, y: 0, z: 4_000 };
    let slings = vec![
        test_sling(Point3Mm { x: 2_000, y: 0, z: 0 }, hook, 20_000),
        test_sling(Point3Mm { x: -1_000, y: 1_732, z: 0 }, hook, 20_000),
        test_sling(Point3Mm { x: -1_000, y: -1_732, z: 0 }, hook, 20_000),
    ];
    let tensions = RiggingCalculator::solve_three_sling_system(&load, &slings).unwrap();
    assert_eq!(tensions.len(), 3);
    for t in &tensions {
        // each leg carries about a third of the load, increased by the lean
        assert!((*t - 3_350).abs() <= 120, "tension {}", t);
    }
}

#[test]
fn test_rigging_analyze() {
    let load = test_load(10_000);
    let hook = Point3Mm { x: 0, y: 0, z: 5_000 };
    let config = RiggingConfiguration {
        load,
        slings: vec![
            test_sling(Point3Mm { x: -2_000, y: 0, z: 0 }, hook, 20_000),
            test_sling(Point3Mm { x: 2_000, y: 0, z: 0 }, hook, 20_000),
        ],
        hardware: Vec::new(),
        crane_hook_position: hook,
    };
    let analysis = RiggingCalculator::analyze(&config).unwrap();
    assert_eq!(analysis.sling_tensions.len(), 2);
    assert!(analysis.is_balanced);
    // 20 000 kg rated against about 5 385 kg of tension: under 5:1
    assert!(!analysis.safety_analysis.is_configuration_safe);
    assert!(!analysis.warnings.is_empty());
}

#[test]
fn test_no_slings_error() {
    let load = test_load(10_000);
    let config = RiggingConfiguration {
        load,
        slings: Vec::new(),
        hardware: Vec::new(),
        crane_hook_position: Point3Mm { x: 0, y: 0, z: 5_000 },
    };
    assert!(RiggingCalculator::analyze(&config).is_err());
}

#[test]
fn test_dynamic_factors() {
    let r = RiggingCalculator::apply_dynamic_factors(1_000, DynamicFactors {
        impact_loading: true,
        wind_speed_mms: 0,
    });
    assert_eq!(r, 1_250);
    let r = RiggingCalculator::apply_dynamic_factors(1_000, DynamicFactors {
        impact_loading: true,
        wind_speed_mms: 10_000,
    });
    assert_eq!(r, 1_500);
}

#[test]
fn test_required_sling_capacity() {
    let r = RiggingDesigner::required_sling_capacity(10_000, 4, 0, HitchType::Vertical);
    assert_eq!(r, 3_000);
    assert_eq!(RiggingDesigner::required_sling_capacity(10_000, 0, 0, HitchType::Vertical), 0);
}

#[test]
fn test_suggest_pick_points() {
    let load = test_load(10_000);
    let two = RiggingDesigner::suggest_pick_points(&load, 2);
    assert_eq!(two.len(), 2);
    assert_eq!(two[0].x, -1_600);
    assert_eq!(two[1].x, 1_600);
    let four = RiggingDesigner::suggest_pick_points(&load, 4);
    assert_eq!(four.len(), 4);
    assert_eq!(four[0].x, 1_400);
    assert_eq!(four[0].y, 700);
    assert!(RiggingDesigner::suggest_pick_points(&load, 3).is_empty());
}

#[test]
fn test_catalog() {
    let specs = CraneSpec::all_specs();
    assert_eq!(specs.len(), 8);
    let spec = CraneSpec::liebherr_ltm_1100();
    assert_eq!(spec.max_capacity_kg, 100_000);
    assert_eq!(spec.boom_length_min_mm, 15_000);
    assert_eq!(spec.boom_length_max_mm, 52_000);
    assert_eq!(spec.counterweight_max_slabs, 16);
    assert_eq!(spec.id, "liebherr_ltm_1100_5_2");
}

#[test]
fn test_error_messages() {
    let e = CraneConfigError::BoomLengthOutOfRange {
        current_mm: 60_000,
        min_mm: 15_000,
        max_mm: 52_000,
    };
    assert_eq!(e.message(), "Boom length 60.0m is out of range (15.0m - 52.0m)");
}

#[test]
fn test_soil_capacities() {
    assert_eq!(SoilType::HardRock.allowable_bearing_capacity_kpa(), 5_746);
    assert_eq!(SoilType::Peat.allowable_bearing_capacity_kpa(), 25);
    assert_eq!(SoilType::Custom { capacity_kpa: 123 }.allowable_bearing_capacity_kpa(), 123);
}

#[test]
fn test_outrigger_names() {
    assert_eq!(OutriggerPosition::FrontLeft.as_str(), "Front Left");
    assert_eq!(OutriggerPosition::all().len(), 4);
}

#[test]
fn test_spreader_beam() {
    let r = RiggingCalculator::analyze_spreader_beam(10_000, 1_000, 5_000, 10_000);
    assert_eq!(r.max_shear_force_n, 53_955);
    assert_eq!(r.max_bending_moment_nmm, 134_887_500);
    assert_eq!(r.required_section_modulus_mm3, 539_550);
}

#[test]
fn test_csv_parser() {
    let csv = "boom_length,radius,capacity\n30.0,3.0,100000\n30.0,5.0,80000\n40.0,3.0,90000";
    let charts = LoadChartParser::parse_csv(csv).unwrap();
    assert_eq!(charts.len(), 2);
    assert_eq!(charts[0].points.len(), 2);
    assert_eq!(charts[0].boom_length_mm, 30_000);
    assert_eq!(charts[0].points[0].radius_mm, 3_000);
    assert_eq!(charts[0].points[0].capacity_kg, 100_000);
}

#[test]
fn test_csv_parser_errors() {
    let bad_columns = "boom_length,radius,capacity\n30.0,3.0";
    let err = LoadChartParser::parse_csv(bad_columns).unwrap_err();
    assert_eq!(err, "Line 2: Expected 3 columns, got 2");
    let bad_number = "boom_length,radius,capacity\n30.0,3.0,100000\nabc,3.0,100000";
    let err = LoadChartParser::parse_csv(bad_number).unwrap_err();
    assert_eq!(err, "Line 3: Invalid boom length 'abc'");
}

#[test]
fn test_table_parser() {
    let table = "\nBOOM LENGTH: 30.0m\nRadius(m)  Capacity(kg)\n3.0        100000\n5.0        80000\n\nBOOM LENGTH: 40.0m\nRadius(m)  Capacity(kg)\n3.0        90000\n        ";
    let charts = LoadChartParser::parse_table(table).unwrap();
    assert_eq!(charts.len(), 2);
    assert_eq!(charts[0].boom_length_mm, 30_000);
    assert_eq!(charts[0].points.len(), 2);
    assert_eq!(charts[1].points[0].capacity_kg, 90_000);
}

#[test]
fn test_table_parser_error() {
    let table = "BOOM LENGTH: xm\n3.0 100000";
    let err = LoadChartParser::parse_table(table).unwrap_err();
    assert_eq!(err, "Invalid boom length: x");
}

#[test]
fn test_capacity_chart_builder() {
    let csv = "boom_length,radius,capacity\n30.0,3.0,100000";
    let chart = CapacityChartBuilder::new()
        .with_over_side_factor(800)
        .add_charts_from_csv(csv)
        .unwrap()
        .build();
    assert_eq!(chart.over_side_factor_pm, 800);
    assert_eq!(chart.charts.len(), 1);
    assert_eq!(chart.get_capacity(30_000, 3_000, 0, 1_000, false), Some(100_000));
}

#[test]
fn test_json_parser() {
    let json = "{\n  \"charts\": [\n    {\n      \"boom_length_m\": 30.0,\n      \"points\": [\n        {\"radius_m\": 3.0, \"capacity_kg\": 100000},\n        {\"radius_m\": 5.0, \"capacity_kg\": 80000}\n      ]\n    }\n  ]\n}";
    let charts = LoadChartParser::parse_json(json).unwrap();
    assert_eq!(charts.len(), 1);
    assert_eq!(charts[0].points.len(), 2);
    assert_eq!(charts[0].boom_length_mm, 30_000);
    assert_eq!(charts[0].points[1].capacity_kg, 80_000);
}

#[test]
fn test_json_parser_errors() {
    assert!(LoadChartParser::parse_json("{}").is_err());
    assert!(LoadChartParser::parse_json("{\"charts\":[]}").unwrap().is_empty());
    assert!(LoadChartParser::parse_json("{\"charts\":[{\"boom_length_m\": x}]}").is_err());
}

#[test]
fn test_validate_fail_fast() {
    let spec = CraneSpec::liebherr_ltm_1100();
    let mut config = CraneConfiguration::new(spec);
    // boom length and boom angle both out of range: the boom length error
    // comes first
    config.boom_length_mm = 60_000;
    config.boom_angle_mdeg = 89_000;
    match config.validate() {
        Err(CraneConfigError::BoomLengthOutOfRange { current_mm, min_mm, max_mm }) => {
            assert_eq!(current_mm, 60_000);
            assert_eq!(min_mm, 15_000);
            assert_eq!(max_mm, 52_000);
        }
        other => panic!("wrong validation outcome: {:?}", other),
    }
    config.boom_length_mm = 30_000;
    assert!(matches!(config.validate(), Err(CraneConfigError::BoomAngleInvalid { .. })));
}

#[test]
fn test_safety_critical_sling() {
    let load = test_load(10_000);
    let hook = Point3Mm { x: 0, y: 0, z: 5_000 };
    // the weaker sling carries the same tension, so it is critical
    let mut weak = test_sling(Point3Mm { x: -2_000, y: 0, z: 0 }, hook, 8_000);
    weak.spec.id = String::from("weak");
    let strong = test_sling(Point3Mm { x: 2_000, y: 0, z: 0 }, hook, 20_000);
    let config = RiggingConfiguration {
        load,
        slings: vec![weak, strong],
        hardware: Vec::new(),
        crane_hook_position: hook,
    };
    let analysis = RiggingCalculator::analyze(&config).unwrap();
    assert_eq!(analysis.safety_analysis.critical_sling_id.as_deref(), Some("weak"));
    assert!(analysis.safety_analysis.overall_safety_factor_pm < 2_000);
}

#[test]
fn test_descriptions() {
    let pad = SupportType::OutriggerPad { pad_diameter_mm: 600, pad_material: PadMaterial::Steel };
    assert_eq!(pad.description(), "0.6m Steel pad");
    assert!(SoilType::Peat.description().starts_with("Soft soil."));
}

#[test]
fn test_chart_extrema() {
    let mut chart = LoadChart::new(30_000);
    chart.add_point(3_000, 100_000);
    chart.add_point(10_000, 40_000);
    assert_eq!(chart.max_radius(), 10_000);
    assert_eq!(chart.min_radius(), 3_000);
    assert_eq!(chart.max_capacity(), 100_000);
}

#[test]
fn test_rigging_weight() {
    let slings = vec![test_sling(Point3Mm { x: 0, y: 0, z: 0 },
        Point3Mm { x: 0, y: 0, z: 5_000 }, 20_000)];
    // 10 m of 20 mm wire rope: 100 kg
    let w = RiggingCalculator::calculate_rigging_weight_kg(&slings, &Vec::new());
    assert_eq!(w, 100);
}

#[test]
fn test_parallel_vertical_four_point_lift() {
    // the canonical symmetric 4-point vertical lift: four parallel vertical
    // slings at the corners of a centred load share the load evenly
    let load = test_load(10_000);
    let slings = vec![
        test_sling(Point3Mm { x: -2_000, y: -1_000, z: 0 },
            Point3Mm { x: -2_000, y: -1_000, z: 4_000 }, 20_000),
        test_sling(Point3Mm { x: -2_000, y: 1_000, z: 0 },
            Point3Mm { x: -2_000, y: 1_000, z: 4_000 }, 20_000),
        test_sling(Point3Mm { x: 2_000, y: -1_000, z: 0 },
            Point3Mm { x: 2_000, y: -1_000, z: 4_000 }, 20_000),
        test_sling(Point3Mm { x: 2_000, y: 1_000, z: 0 },
            Point3Mm { x: 2_000, y: 1_000, z: 4_000 }, 20_000),
    ];
    let tensions = RiggingCalculator::solve_multi_sling_system(&load, &slings).unwrap();
    assert_eq!(tensions.len(), 4);
    for t in &tensions {
        assert!((*t - 2_500).abs() <= 1, "tensions {:?}", tensions);
    }
}

#[test]
fn test_planar_four_point_lift() {
    // all slings in one vertical plane: a rank-deficient but consistent
    // rigging, still solved in the least-squares sense
    let load = test_load(8_000);
    let hook = Point3Mm { x: 0, y: 0, z: 3_000 };
    let slings = vec![
        test_sling(Point3Mm { x: -2_000, y: 0, z: 0 }, hook, 20_000),
        test_sling(Point3Mm { x: -1_000, y: 0, z: 0 }, hook, 20_000),
        test_sling(Point3Mm { x: 1_000, y: 0, z: 0 }, hook, 20_000),
        test_sling(Point3Mm { x: 2_000, y: 0, z: 0 }, hook, 20_000),
    ];
    let tensions = RiggingCalculator::solve_multi_sling_system(&load, &slings).unwrap();
    assert_eq!(tensions.len(), 4);
    let total: i64 = tensions.iter().sum();
    assert!(total > 8_000, "tensions {:?}", tensions);
    for t in &tensions {
        assert!(*t > 0);
    }
}

#[test]
fn test_builder_from_table() {
    let table = "BOOM LENGTH: 30.0m\n3.0 100000\n5.0 80000";
    let chart = CapacityChartBuilder::new()
        .add_charts_from_table(table)
        .unwrap()
        .build();
    assert_eq!(chart.charts.len(), 1);
    assert_eq!(chart.get_capacity(30_000, 3_000, 0, 1_000, false), Some(100_000));
}
