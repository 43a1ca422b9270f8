//! The mutable scenario state of one crane: where it stands, how the boom is
//! set, and the state of its outriggers and counterweight.
//!
//! Every derived quantity — radius, hook position, current capacity — is
//! computed on demand from the current state; nothing is cached, so nothing
//! can go stale.

use vstd::prelude::*;
use crate::capacity::{spec_chart_choice, spec_derate};
use crate::chart::spec_capacity_at;
use crate::counterweight::{counterweight_wf, CounterweightConfig};
use crate::errors::CraneConfigError;
use crate::geom::{point_in_bounds, Point3Mm};
use crate::kinematics::{
    calculate_boom_tip_position, calculate_hook_position, spec_boom_tip, spec_hook_position,
    spec_scale, MAX_ANGLE_MDEG,
};
use crate::outriggers::{
    outrigger_system_wf, spec_all_deployed, spec_is_deployed, OutriggerSystem,
};
use crate::spec_catalog::{crane_spec_wf, CraneSpec};
use crate::trig::spec_cos_mdeg;

verus! {

/// Complete crane configuration at a specific moment.
#[derive(Clone, Debug)]
pub struct CraneConfiguration {
    /// The immutable catalog entry.
    pub spec: CraneSpec,
    /// World position of the crane base.
    pub position: Point3Mm,
    /// Facing direction of the carrier, clockwise from north.
    pub heading_mdeg: i64,
    /// Current boom length.
    pub boom_length_mm: i64,
    /// Boom angle up from horizontal.
    pub boom_angle_mdeg: i64,
    /// Swing angle relative to the crane heading.
    pub swing_angle_mdeg: i64,
    /// Cable length below the boom tip.
    pub hoist_length_mm: i64,
    /// The outrigger system.
    pub outriggers: OutriggerSystem,
    /// The counterweight stack.
    pub counterweight: CounterweightConfig,
}

/// A well-formed configuration: the catalog entry and both subsystems
/// well-formed, position and angles within the engine's bounds.
pub open spec fn crane_config_wf(c: CraneConfiguration) -> bool {
    &&& crane_spec_wf(c.spec)
    &&& point_in_bounds(c.position)
    &&& -MAX_ANGLE_MDEG <= c.heading_mdeg <= MAX_ANGLE_MDEG
    &&& 0 <= c.boom_length_mm <= 1_000_000
    &&& -MAX_ANGLE_MDEG <= c.boom_angle_mdeg <= MAX_ANGLE_MDEG
    &&& -MAX_ANGLE_MDEG <= c.swing_angle_mdeg <= MAX_ANGLE_MDEG
    &&& 0 <= c.hoist_length_mm <= 1_000_000
    &&& outrigger_system_wf(c.outriggers)
    &&& counterweight_wf(c.counterweight)
}

/// The operating radius: the boom length projected onto the ground.
pub open spec fn spec_radius(c: CraneConfiguration) -> int {
    spec_scale(c.boom_length_mm as int, spec_cos_mdeg(c.boom_angle_mdeg as int))
}

/// The average outrigger extension in parts per thousand: each outrigger's
/// extension over its maximum, averaged over all four.  An outrigger with no
/// horizontal travel counts as fully extended.
pub open spec fn spec_avg_extension_pm(s: OutriggerSystem) -> int {
    (spec_ext_ratio_pm(s.outriggers@[0]) + spec_ext_ratio_pm(s.outriggers@[1])
        + spec_ext_ratio_pm(s.outriggers@[2]) + spec_ext_ratio_pm(s.outriggers@[3])) / 4
}

/// One outrigger's extension ratio in parts per thousand.
pub open spec fn spec_ext_ratio_pm(o: crate::outriggers::OutriggerConfig) -> int {
    if o.max_extension_mm > 0 {
        o.extension_mm * 1000 / (o.max_extension_mm as int)
    } else {
        1000
    }
}


/// The boom length lies within the catalog entry's range.
pub open spec fn spec_boom_length_ok(c: CraneConfiguration) -> bool {
    c.spec.boom_length_min_mm <= c.boom_length_mm <= c.spec.boom_length_max_mm
}

/// The boom angle lies within the catalog entry's range.
pub open spec fn spec_boom_angle_ok(c: CraneConfiguration) -> bool {
    c.spec.min_boom_angle_mdeg <= c.boom_angle_mdeg <= c.spec.max_boom_angle_mdeg
}

/// The operating radius lies within the catalog entry's range.
pub open spec fn spec_radius_ok(c: CraneConfiguration) -> bool {
    c.spec.min_radius_mm <= spec_radius(c) <= c.spec.max_radius_mm
}

/// The hook height of a configuration.
pub open spec fn spec_hook_z(c: CraneConfiguration) -> int {
    spec_hook_position(c.position, c.boom_length_mm as int, c.boom_angle_mdeg as int,
        c.swing_angle_mdeg as int + c.heading_mdeg as int, c.spec.boom_pivot_height_mm as int,
        c.hoist_length_mm as int).z as int
}

/// The hook stays at or below the maximum tip height.
pub open spec fn spec_height_ok(c: CraneConfiguration) -> bool {
    spec_hook_z(c) <= c.spec.max_tip_height_mm
}

/// The error [`CraneConfiguration::validate`] reports: exactly the first
/// violated check, in the fail-fast order boom length, boom angle, radius,
/// hook height, outrigger extensions in outrigger order, outrigger
/// deployment, counterweight envelope, slab ceiling.
pub open spec fn spec_validate_error(c: CraneConfiguration, e: CraneConfigError) -> bool {
    let o = c.outriggers.outriggers@;
    if !spec_boom_length_ok(c) {
        e == (CraneConfigError::BoomLengthOutOfRange {
            current_mm: c.boom_length_mm,
            min_mm: c.spec.boom_length_min_mm,
            max_mm: c.spec.boom_length_max_mm,
        })
    } else if !spec_boom_angle_ok(c) {
        e == (CraneConfigError::BoomAngleInvalid { angle_mdeg: c.boom_angle_mdeg })
    } else if !spec_radius_ok(c) {
        e == (CraneConfigError::RadiusOutOfRange {
            current_mm: spec_radius(c) as i64,
            min_mm: c.spec.min_radius_mm,
            max_mm: c.spec.max_radius_mm,
        })
    } else if !spec_height_ok(c) {
        e == (CraneConfigError::HeightExceeded {
            current_mm: spec_hook_z(c) as i64,
            max_mm: c.spec.max_tip_height_mm,
        })
    } else if !crate::outriggers::spec_extension_ok(o[0]) {
        e == spec_extension_error(o[0])
    } else if !crate::outriggers::spec_extension_ok(o[1]) {
        e == spec_extension_error(o[1])
    } else if !crate::outriggers::spec_extension_ok(o[2]) {
        e == spec_extension_error(o[2])
    } else if !crate::outriggers::spec_extension_ok(o[3]) {
        e == spec_extension_error(o[3])
    } else if c.outriggers.all_required && !spec_all_deployed(c.outriggers) {
        e matches CraneConfigError::UnsafeConfiguration { reason } && reason@
            == "Not all required outriggers are deployed"@
    } else {
        crate::counterweight::spec_counterweight_error(c.counterweight, e)
    }
}

/// The range error one outrigger reports.
pub open spec fn spec_extension_error(o: crate::outriggers::OutriggerConfig) -> CraneConfigError {
    CraneConfigError::OutriggerExtensionInvalid {
        extension_mm: o.extension_mm,
        min_mm: o.min_extension_mm,
        max_mm: o.max_extension_mm,
    }
}

impl CraneConfiguration {
    /// A fresh configuration on a catalog entry: at the origin, facing
    /// north, with a 30 m boom at 60 degrees, 10 m of cable, the spec's
    /// outrigger system retracted and an empty counterweight stack.
    pub fn new(spec: CraneSpec) -> (c: CraneConfiguration)
        requires
            crane_spec_wf(spec),
        ensures
            crane_config_wf(c),
            c.spec == spec,
            c.position == (Point3Mm { x: 0, y: 0, z: 0 }),
            c.heading_mdeg == 0,
            c.boom_length_mm == 30_000,
            c.boom_angle_mdeg == 60_000,
            c.swing_angle_mdeg == 0,
            c.hoist_length_mm == 10_000,
            c.counterweight.slabs@.len() == 0,
            !spec_all_deployed(c.outriggers),
    {
        let outriggers = spec.create_outrigger_system();
        let counterweight = spec.create_counterweight_config();
        proof {
            assert(!spec_is_deployed(outriggers.outriggers@[0]));
        }
        CraneConfiguration {
            spec,
            position: Point3Mm { x: 0, y: 0, z: 0 },
            heading_mdeg: 0,
            boom_length_mm: 30_000,
            boom_angle_mdeg: 60_000,
            swing_angle_mdeg: 0,
            hoist_length_mm: 10_000,
            outriggers,
            counterweight,
        }
    }

    /// The boom tip position in world coordinates, from the current state;
    /// the effective bearing is the swing angle plus the heading.
    pub fn get_boom_tip_position(&self) -> (p: Point3Mm)
        requires
            crane_config_wf(*self),
        ensures
            p == spec_boom_tip(self.position, self.boom_length_mm as int,
                self.boom_angle_mdeg as int,
                self.swing_angle_mdeg as int + self.heading_mdeg as int,
                self.spec.boom_pivot_height_mm as int),
    {
        calculate_boom_tip_position(self.position, self.boom_length_mm, self.boom_angle_mdeg,
            self.swing_angle_mdeg + self.heading_mdeg, self.spec.boom_pivot_height_mm)
    }

    /// The hook position in world coordinates, from the current state.
    pub fn get_hook_position(&self) -> (p: Point3Mm)
        requires
            crane_config_wf(*self),
        ensures
            p == spec_hook_position(self.position, self.boom_length_mm as int,
                self.boom_angle_mdeg as int,
                self.swing_angle_mdeg as int + self.heading_mdeg as int,
                self.spec.boom_pivot_height_mm as int, self.hoist_length_mm as int),
    {
        calculate_hook_position(self.position, self.boom_length_mm, self.boom_angle_mdeg,
            self.swing_angle_mdeg + self.heading_mdeg, self.spec.boom_pivot_height_mm,
            self.hoist_length_mm)
    }

    /// The current operating radius: boom length times the cosine of the
    /// boom angle.
    pub fn get_radius(&self) -> (r: i64)
        requires
            crane_config_wf(*self),
        ensures
            r == spec_radius(*self),
            -1_000_000 <= r <= 1_000_000,
    {
        let cos_boom = crate::trig::cos_mdeg(self.boom_angle_mdeg);
        let r = crate::kinematics::scale_trig(self.boom_length_mm, cos_boom);
        proof {
            crate::num::lemma_lerp_in_range(0, 1, 0, 0);
            assert(-1_000_000_000_000 <= (self.boom_length_mm as int) * (spec_cos_mdeg(
                self.boom_angle_mdeg as int)) <= 1_000_000_000_000) by (nonlinear_arith)
                requires
                    0 <= self.boom_length_mm <= 1_000_000 && -1_000_000 <= spec_cos_mdeg(
                        self.boom_angle_mdeg as int) <= 1_000_000;
            vstd::arithmetic::div_mod::lemma_div_is_ordered(
                (self.boom_length_mm as int) * spec_cos_mdeg(self.boom_angle_mdeg as int),
                1_000_000_000_000, 1_000_000);
            vstd::arithmetic::div_mod::lemma_div_is_ordered(
                -1_000_000_000_000,
                (self.boom_length_mm as int) * spec_cos_mdeg(self.boom_angle_mdeg as int),
                1_000_000);
            vstd::arithmetic::div_mod::lemma_div_multiples_vanish(1_000_000, 1_000_000);
            vstd::arithmetic::div_mod::lemma_div_multiples_vanish(-1_000_000, 1_000_000);
        }
        r
    }

    /// The current hook height above the world origin.
    pub fn get_hook_height(&self) -> (r: i64)
        requires
            crane_config_wf(*self),
        ensures
            r == spec_hook_position(self.position, self.boom_length_mm as int,
                self.boom_angle_mdeg as int,
                self.swing_angle_mdeg as int + self.heading_mdeg as int,
                self.spec.boom_pivot_height_mm as int, self.hoist_length_mm as int).z,
    {
        let p = self.get_hook_position();
        p.z
    }

    /// The de-rated capacity of the current configuration.
    ///
    /// With the required outriggers not all deployed the crane counts as on
    /// tires with zero extension; otherwise the average extension ratio of
    /// the four outriggers feeds the intermediate-outrigger de-rating.  The
    /// swing angle relative to the carrier picks the quadrant factor.
    pub fn get_current_capacity(&self) -> (r: Option<i64>)
        requires
            crane_config_wf(*self),
        ensures
            ({
                let on_tires = !spec_all_deployed(self.outriggers);
                let ext = if on_tires {
                    0int
                } else {
                    spec_avg_extension_pm(self.outriggers)
                };
                match spec_chart_choice(self.spec.capacity_chart.charts@,
                    self.boom_length_mm as int) {
                    None => r is None,
                    Some(ci) => match spec_capacity_at(
                        self.spec.capacity_chart.charts@[ci].points@, spec_radius(*self)) {
                        None => r is None,
                        Some(base) => r is Some && r->0 == spec_derate(self.spec.capacity_chart,
                            base, self.swing_angle_mdeg as int, ext, on_tires)
                            && 0 <= r->0 <= 1_000_000_000,
                    },
                }
            }),
    {
        let radius = self.get_radius();
        let on_tires = !self.outriggers.all_deployed();
        let avg_extension_pm: i64 = if on_tires {
            0
        } else {
            let o0 = ext_ratio_pm(&self.outriggers.outriggers[0]);
            let o1 = ext_ratio_pm(&self.outriggers.outriggers[1]);
            let o2 = ext_ratio_pm(&self.outriggers.outriggers[2]);
            let o3 = ext_ratio_pm(&self.outriggers.outriggers[3]);
            (o0 + o1 + o2 + o3) / 4
        };
        self.spec.capacity_chart.get_capacity(self.boom_length_mm, radius, self.swing_angle_mdeg,
            avg_extension_pm, on_tires)
    }

    /// Whether a load can be lifted at the current configuration.
    ///
    /// Fails with `LoadExceedsCapacity` exactly when the load exceeds the
    /// de-rated chart capacity, and with `UnsafeConfiguration` exactly when
    /// no capacity can be determined.  Otherwise returns whether the load
    /// stays within the safe working load: three quarters of the chart
    /// capacity.
    pub fn can_lift(&self, load_kg: i64) -> (r: Result<bool, CraneConfigError>)
        requires
            crane_config_wf(*self),
            0 <= load_kg <= 1_000_000_000,
        ensures
            ({
                let on_tires = !spec_all_deployed(self.outriggers);
                let ext = if on_tires {
                    0int
                } else {
                    spec_avg_extension_pm(self.outriggers)
                };
                match spec_chart_choice(self.spec.capacity_chart.charts@,
                    self.boom_length_mm as int) {
                    None => r is Err && r->Err_0 is UnsafeConfiguration,
                    Some(ci) => match spec_capacity_at(
                        self.spec.capacity_chart.charts@[ci].points@, spec_radius(*self)) {
                        None => r is Err && r->Err_0 is UnsafeConfiguration,
                        Some(base) => {
                            let capacity = spec_derate(self.spec.capacity_chart, base,
                                self.swing_angle_mdeg as int, ext, on_tires);
                            if load_kg > capacity {
                                r is Err && r->Err_0 == (CraneConfigError::LoadExceedsCapacity {
                                    load_kg,
                                    capacity_kg: capacity as i64,
                                    radius_mm: spec_radius(*self) as i64,
                                })
                            } else {
                                r == Result::<bool, CraneConfigError>::Ok(
                                    load_kg <= capacity * 3 / 4,
                                )
                            }
                        },
                    },
                }
            }),
    {
        let capacity = match self.get_current_capacity() {
            Some(c) => c,
            None => {
                return Err(CraneConfigError::UnsafeConfiguration {
                    reason: String::from_str(
                        "Cannot determine capacity for current configuration",
                    ),
                });
            },
        };
        if load_kg > capacity {
            return Err(CraneConfigError::LoadExceedsCapacity {
                load_kg,
                capacity_kg: capacity,
                radius_mm: self.get_radius(),
            });
        }
        let safe_capacity: i64 = ((capacity as u64 * 3) / 4) as i64;
        Ok(load_kg <= safe_capacity)
    }

    /// Validate the whole configuration, fail-fast: boom length range, boom
    /// angle range, radius range, hook height against the maximum tip
    /// height, then the outrigger system, then the counterweight.
    #[verifier::rlimit(100)]
    pub fn validate(&self) -> (r: Result<(), CraneConfigError>)
        requires
            crane_config_wf(*self),
        ensures
            r is Ok <==> ({
                &&& spec_boom_length_ok(*self)
                &&& spec_boom_angle_ok(*self)
                &&& spec_radius_ok(*self)
                &&& spec_height_ok(*self)
                &&& (forall|i: int| 0 <= i < self.outriggers.outriggers@.len()
                    ==> crate::outriggers::spec_extension_ok(
                    #[trigger] self.outriggers.outriggers@[i]))
                &&& (self.outriggers.all_required ==> spec_all_deployed(self.outriggers))
                &&& self.counterweight.min_counterweight_kg <= crate::counterweight::spec_total_weight(
                    self.counterweight.slabs@) <= self.counterweight.max_counterweight_kg
                &&& self.counterweight.slabs@.len() <= self.counterweight.max_slabs
            }),
            r is Err ==> spec_validate_error(*self, r->Err_0),
    {
        if self.boom_length_mm < self.spec.boom_length_min_mm || self.boom_length_mm
            > self.spec.boom_length_max_mm {
            return Err(CraneConfigError::BoomLengthOutOfRange {
                current_mm: self.boom_length_mm,
                min_mm: self.spec.boom_length_min_mm,
                max_mm: self.spec.boom_length_max_mm,
            });
        }
        if self.boom_angle_mdeg < self.spec.min_boom_angle_mdeg || self.boom_angle_mdeg
            > self.spec.max_boom_angle_mdeg {
            return Err(CraneConfigError::BoomAngleInvalid { angle_mdeg: self.boom_angle_mdeg });
        }
        let radius = self.get_radius();
        if radius < self.spec.min_radius_mm || radius > self.spec.max_radius_mm {
            return Err(CraneConfigError::RadiusOutOfRange {
                current_mm: radius,
                min_mm: self.spec.min_radius_mm,
                max_mm: self.spec.max_radius_mm,
            });
        }
        let height = self.get_hook_height();
        if height > self.spec.max_tip_height_mm {
            return Err(CraneConfigError::HeightExceeded {
                current_mm: height,
                max_mm: self.spec.max_tip_height_mm,
            });
        }
        match self.outriggers.validate() {
            Ok(()) => {},
            Err(e) => {
                return Err(e);
            },
        }
        match self.counterweight.validate() {
            Ok(()) => {},
            Err(e) => {
                return Err(e);
            },
        }
        Ok(())
    }

    /// Total weight of the crane: the carrier plus the counterweight stack.
    pub fn get_total_weight_kg(&self) -> (r: i64)
        requires
            crane_config_wf(*self),
        ensures
            r == self.spec.base_weight_kg + crate::counterweight::spec_total_weight(
                self.counterweight.slabs@),
            r >= 0,
    {
        self.spec.base_weight_kg + self.counterweight.get_total_weight_kg()
    }
}

/// One outrigger's extension ratio in parts per thousand; an outrigger with
/// no horizontal travel counts as fully extended.
fn ext_ratio_pm(o: &crate::outriggers::OutriggerConfig) -> (r: i64)
    requires
        crate::outriggers::outrigger_ok(*o),
    ensures
        r == spec_ext_ratio_pm(*o),
        0 <= r <= 1_000_000_000,
{
    if o.max_extension_mm > 0 {
        proof {
            assert(0 <= (o.extension_mm as int) * 1000 <= 1_000_000_000) by (nonlinear_arith)
                requires 0 <= o.extension_mm <= 1_000_000;
            vstd::arithmetic::div_mod::lemma_div_pos_is_pos(
                (o.extension_mm as int) * 1000, o.max_extension_mm as int);
            vstd::arithmetic::div_mod::lemma_div_is_ordered_by_denominator(
                (o.extension_mm as int) * 1000, 1, o.max_extension_mm as int);
            vstd::arithmetic::div_mod::lemma_div_by_self(1);
        }
        crate::num::div_floor_i64(o.extension_mm * 1000, o.max_extension_mm)
    } else {
        1000
    }
}

/// Lightweight state for hot paths: the scalars a renderer reads each frame.
#[derive(Clone, Copy, Debug, PartialEq, Eq, Structural)]
pub struct CraneState {
    pub boom_length_mm: i64,
    pub boom_angle_mdeg: i64,
    pub swing_angle_mdeg: i64,
    pub position: Point3Mm,
}

impl CraneState {
    /// Capture the boom scalars and position of a configuration.
    pub fn from_configuration(config: &CraneConfiguration) -> (s: CraneState)
        ensures
            s.boom_length_mm == config.boom_length_mm,
            s.boom_angle_mdeg == config.boom_angle_mdeg,
            s.swing_angle_mdeg == config.swing_angle_mdeg,
            s.position == config.position,
    {
        CraneState {
            boom_length_mm: config.boom_length_mm,
            boom_angle_mdeg: config.boom_angle_mdeg,
            swing_angle_mdeg: config.swing_angle_mdeg,
            position: config.position,
        }
    }
}

} // verus!
