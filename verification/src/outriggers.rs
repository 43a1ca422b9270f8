//! The outrigger system: four retractable legs that support the crane.
//!
//! Each outrigger is a three-state machine — retracted, extended, or set
//! down on its jack — and only the `Set` state counts as deployed.  Any
//! state is reachable from any other.  Contact points project the crane's
//! corners outward along the diagonal by the horizontal extension.

use vstd::prelude::*;
use crate::errors::CraneConfigError;
use crate::geom::Point3Mm;
use crate::num::{isqrt_u64, spec_isqrt};

verus! {

/// Longest outrigger extension and widest crane base accepted: 1 km.
pub const MAX_OUTRIGGER_MM: i64 = 1_000_000;

/// Outrigger position on the crane.
#[derive(Clone, Copy, Debug, PartialEq, Eq, Hash, Structural)]
pub enum OutriggerPosition {
    FrontLeft,
    FrontRight,
    RearLeft,
    RearRight,
}

impl OutriggerPosition {
    /// All four positions, front before rear, left before right.
    pub fn all() -> (r: [OutriggerPosition; 4])
        ensures
            r@ == seq![
                OutriggerPosition::FrontLeft,
                OutriggerPosition::FrontRight,
                OutriggerPosition::RearLeft,
                OutriggerPosition::RearRight,
            ],
    {
        let r = [
            OutriggerPosition::FrontLeft,
            OutriggerPosition::FrontRight,
            OutriggerPosition::RearLeft,
            OutriggerPosition::RearRight,
        ];
        proof {
            assert(r@ =~= seq![
                OutriggerPosition::FrontLeft,
                OutriggerPosition::FrontRight,
                OutriggerPosition::RearLeft,
                OutriggerPosition::RearRight,
            ]);
        }
        r
    }

    /// A display name for the position.
    pub fn as_str(&self) -> (r: &'static str)
        ensures
            r@ == spec_position_name(*self),
    {
        match self {
            OutriggerPosition::FrontLeft => "Front Left",
            OutriggerPosition::FrontRight => "Front Right",
            OutriggerPosition::RearLeft => "Rear Left",
            OutriggerPosition::RearRight => "Rear Right",
        }
    }
}

/// The display name of each outrigger position.
pub open spec fn spec_position_name(p: OutriggerPosition) -> Seq<char> {
    match p {
        OutriggerPosition::FrontLeft => "Front Left"@,
        OutriggerPosition::FrontRight => "Front Right"@,
        OutriggerPosition::RearLeft => "Rear Left"@,
        OutriggerPosition::RearRight => "Rear Right"@,
    }
}

/// Outrigger deployment state.
#[derive(Clone, Copy, Debug, PartialEq, Structural)]
pub enum OutriggerDeployment {
    /// Retracted for travel.
    Retracted,
    /// Extended horizontally but not set down.
    Extended,
    /// Set down on its jack and supporting the crane.
    SetDown { jack_extension_mm: i64 },
}

/// Configuration of a single outrigger.
#[derive(Clone, Copy, Debug)]
pub struct OutriggerConfig {
    pub position: OutriggerPosition,
    pub deployment: OutriggerDeployment,
    /// Horizontal extension from the crane centre.
    pub extension_mm: i64,
    /// Largest allowed horizontal extension.
    pub max_extension_mm: i64,
    /// Smallest allowed horizontal extension.
    pub min_extension_mm: i64,
    /// Pad diameter, if a pad is fitted.
    pub pad_diameter_mm: Option<i64>,
}

/// An outrigger whose lengths lie within the engine's bounds.
pub open spec fn outrigger_ok(o: OutriggerConfig) -> bool {
    &&& 0 <= o.extension_mm <= MAX_OUTRIGGER_MM
    &&& 0 <= o.max_extension_mm <= MAX_OUTRIGGER_MM
    &&& 0 <= o.min_extension_mm <= MAX_OUTRIGGER_MM
}

/// Deployed means set down on the jack, nothing less.
pub open spec fn spec_is_deployed(o: OutriggerConfig) -> bool {
    o.deployment is SetDown
}

/// The signs of the corner a position sits on: X to the right, Y forward.
pub open spec fn spec_corner_signs(p: OutriggerPosition) -> (int, int) {
    match p {
        OutriggerPosition::FrontLeft => (-1, 1),
        OutriggerPosition::FrontRight => (1, 1),
        OutriggerPosition::RearLeft => (-1, -1),
        OutriggerPosition::RearRight => (1, -1),
    }
}

/// The contact point of an outrigger in crane-local coordinates: the corner
/// at half the base width, pushed outward along the diagonal by the ratio of
/// the extension to the diagonal's length.  A degenerate base (diagonal of
/// zero) leaves the corner in place.
pub open spec fn spec_contact_point(o: OutriggerConfig, crane_base_width_mm: int) -> Point3Mm {
    let half = crane_base_width_mm / 2;
    let diag = spec_isqrt(2 * half * half);
    let offset = if diag > 0 {
        half * o.extension_mm / diag
    } else {
        0
    };
    let signs = spec_corner_signs(o.position);
    Point3Mm {
        x: (signs.0 * (half + offset)) as i64,
        y: (signs.1 * (half + offset)) as i64,
        z: 0,
    }
}

impl OutriggerConfig {
    /// A retracted outrigger at full horizontal extension.
    pub fn new(position: OutriggerPosition, max_extension_mm: i64, min_extension_mm: i64) -> (o:
        OutriggerConfig)
        requires
            0 <= max_extension_mm <= MAX_OUTRIGGER_MM,
            0 <= min_extension_mm <= MAX_OUTRIGGER_MM,
        ensures
            o == (OutriggerConfig {
                position,
                deployment: OutriggerDeployment::Retracted,
                extension_mm: max_extension_mm,
                max_extension_mm,
                min_extension_mm,
                pad_diameter_mm: Some(600),
            }),
            outrigger_ok(o),
    {
        OutriggerConfig {
            position,
            deployment: OutriggerDeployment::Retracted,
            extension_mm: max_extension_mm,
            max_extension_mm,
            min_extension_mm,
            pad_diameter_mm: Some(600),
        }
    }

    /// Whether this outrigger is deployed: set down on its jack.  The
    /// deployment state alone decides; the horizontal extension plays no
    /// part.
    pub fn is_deployed(&self) -> (r: bool)
        ensures
            r == spec_is_deployed(*self),
    {
        match self.deployment {
            OutriggerDeployment::SetDown { .. } => true,
            _ => false,
        }
    }

    /// The ground contact point in crane-local coordinates; pure geometry,
    /// independent of the deployment state.  The result equals
    /// [`spec_contact_point`].
    pub fn get_contact_point(&self, crane_base_width_mm: i64) -> (p: Point3Mm)
        requires
            outrigger_ok(*self),
            0 <= crane_base_width_mm <= MAX_OUTRIGGER_MM,
        ensures
            p == spec_contact_point(*self, crane_base_width_mm as int),
            -2 * MAX_OUTRIGGER_MM <= p.x <= 2 * MAX_OUTRIGGER_MM,
            -2 * MAX_OUTRIGGER_MM <= p.y <= 2 * MAX_OUTRIGGER_MM,
            p.z == 0,
    {
        let half: i64 = ((crane_base_width_mm as u64) / 2) as i64;
        proof {
            assert(0 <= 2 * (half as int) * (half as int) <= 500_000_000_000) by (nonlinear_arith)
                requires 0 <= half <= 500_000;
        }
        proof {
            lemma_diag_at_least_half(half as int);
        }
        let diag: i64 = isqrt_u64((2 * half * half) as u64) as i64;
        let offset: i64 = if diag > 0 {
            proof {
                assert(0 <= (half as int) * (self.extension_mm as int) <= 500_000_000_000)
                    by (nonlinear_arith)
                    requires 0 <= half <= 500_000 && 0 <= self.extension_mm <= 1_000_000;
                vstd::arithmetic::div_mod::lemma_div_pos_is_pos(
                    (half as int) * (self.extension_mm as int), diag as int);
                vstd::arithmetic::div_mod::lemma_div_is_ordered_by_denominator(
                    (half as int) * (self.extension_mm as int), half as int, diag as int);
                vstd::arithmetic::div_mod::lemma_div_multiples_vanish(
                    self.extension_mm as int, half as int);
                assert((self.extension_mm as int) * (half as int)
                    == (half as int) * (self.extension_mm as int)) by (nonlinear_arith);
            }
            crate::num::div_floor_i64(half * self.extension_mm, diag)
        } else {
            0
        };
        let (sx, sy): (i64, i64) = match self.position {
            OutriggerPosition::FrontLeft => (-1, 1),
            OutriggerPosition::FrontRight => (1, 1),
            OutriggerPosition::RearLeft => (-1, -1),
            OutriggerPosition::RearRight => (1, -1),
        };
        Point3Mm { x: sx * (half + offset), y: sy * (half + offset), z: 0 }
    }

    /// The extension must lie between the outrigger's minimum and maximum;
    /// the error reports the three values, if and only if the range is
    /// violated.
    pub fn validate(&self) -> (r: Result<(), CraneConfigError>)
        requires
            outrigger_ok(*self),
        ensures
            r is Ok <==> self.min_extension_mm <= self.extension_mm <= self.max_extension_mm,
            r is Err ==> r->Err_0 == (CraneConfigError::OutriggerExtensionInvalid {
                extension_mm: self.extension_mm,
                min_mm: self.min_extension_mm,
                max_mm: self.max_extension_mm,
            }),
    {
        if self.extension_mm < self.min_extension_mm || self.extension_mm > self.max_extension_mm {
            Err(CraneConfigError::OutriggerExtensionInvalid {
                extension_mm: self.extension_mm,
                min_mm: self.min_extension_mm,
                max_mm: self.max_extension_mm,
            })
        } else {
            Ok(())
        }
    }
}

/// For a positive half width, the diagonal `sqrt(2 half^2)` is at least the
/// half width, so the outward offset never exceeds the extension.
proof fn lemma_diag_at_least_half(half: int)
    requires
        0 <= half <= 500_000,
    ensures
        spec_isqrt(2 * half * half) >= half,
        spec_isqrt(2 * half * half) <= 2 * half,
{
    crate::num::lemma_isqrt_is_isqrt(2 * half * half);
    let d = spec_isqrt(2 * half * half);
    assert(d >= half) by (nonlinear_arith)
        requires (d + 1) * (d + 1) > 2 * half * half && 0 <= d && 0 <= half;
    assert(d <= 2 * half) by (nonlinear_arith)
        requires d * d <= 2 * half * half && 0 <= d && 0 <= half;
}


/// Complete outrigger system configuration.
#[derive(Clone, Debug)]
pub struct OutriggerSystem {
    pub outriggers: Vec<OutriggerConfig>,
    /// Base width of the crane body.
    pub crane_base_width_mm: i64,
    /// Base length of the crane body.
    pub crane_base_length_mm: i64,
    /// Whether every outrigger must be deployed for operation.
    pub all_required: bool,
}

/// A well-formed system: exactly four outriggers, one per position in
/// order, all within bounds, and a bounded base.
pub open spec fn outrigger_system_wf(s: OutriggerSystem) -> bool {
    &&& s.outriggers@.len() == 4
    &&& forall|i: int| 0 <= i < 4 ==> outrigger_ok(#[trigger] s.outriggers@[i])
    &&& s.outriggers@[0].position == OutriggerPosition::FrontLeft
    &&& s.outriggers@[1].position == OutriggerPosition::FrontRight
    &&& s.outriggers@[2].position == OutriggerPosition::RearLeft
    &&& s.outriggers@[3].position == OutriggerPosition::RearRight
    &&& 0 <= s.crane_base_width_mm <= MAX_OUTRIGGER_MM
    &&& 0 <= s.crane_base_length_mm <= MAX_OUTRIGGER_MM
}

/// Whether the system counts as deployed: every outrigger set down when all
/// are required, at least one otherwise.
pub open spec fn spec_all_deployed(s: OutriggerSystem) -> bool {
    if s.all_required {
        forall|i: int| 0 <= i < s.outriggers@.len() ==> spec_is_deployed(#[trigger] s.outriggers@[i])
    } else {
        exists|i: int| 0 <= i < s.outriggers@.len() && spec_is_deployed(#[trigger] s.outriggers@[i])
    }
}

/// The contact points of the deployed outriggers of a prefix, in order.
pub open spec fn spec_contact_pairs(s: Seq<OutriggerConfig>, width: int) -> Seq<
    (OutriggerPosition, Point3Mm),
>
    decreases s.len(),
{
    if s.len() == 0 {
        Seq::empty()
    } else {
        let init = spec_contact_pairs(s.drop_last(), width);
        let o = s.last();
        if spec_is_deployed(o) {
            init.push((o.position, spec_contact_point(o, width)))
        } else {
            init
        }
    }
}

impl OutriggerSystem {
    /// Four retracted outriggers at full extension, with the minimum at half
    /// the maximum, all required for operation.
    pub fn new(crane_base_width_mm: i64, crane_base_length_mm: i64, max_extension_mm: i64) -> (s:
        OutriggerSystem)
        requires
            0 <= crane_base_width_mm <= MAX_OUTRIGGER_MM,
            0 <= crane_base_length_mm <= MAX_OUTRIGGER_MM,
            0 <= max_extension_mm <= MAX_OUTRIGGER_MM,
        ensures
            outrigger_system_wf(s),
            s.crane_base_width_mm == crane_base_width_mm,
            s.crane_base_length_mm == crane_base_length_mm,
            s.all_required,
            forall|i: int| 0 <= i < 4 ==> (#[trigger] s.outriggers@[i]).deployment
                == OutriggerDeployment::Retracted && s.outriggers@[i].extension_mm
                == max_extension_mm && s.outriggers@[i].max_extension_mm == max_extension_mm
                && s.outriggers@[i].min_extension_mm == max_extension_mm / 2,
    {
        let min_extension_mm: i64 = ((max_extension_mm as u64) / 2) as i64;
        let mut outriggers: Vec<OutriggerConfig> = Vec::new();
        outriggers.push(OutriggerConfig::new(OutriggerPosition::FrontLeft, max_extension_mm,
            min_extension_mm));
        outriggers.push(OutriggerConfig::new(OutriggerPosition::FrontRight, max_extension_mm,
            min_extension_mm));
        outriggers.push(OutriggerConfig::new(OutriggerPosition::RearLeft, max_extension_mm,
            min_extension_mm));
        outriggers.push(OutriggerConfig::new(OutriggerPosition::RearRight, max_extension_mm,
            min_extension_mm));
        OutriggerSystem {
            outriggers,
            crane_base_width_mm,
            crane_base_length_mm,
            all_required: true,
        }
    }

    /// The outrigger at a position, if present.
    pub fn get_outrigger(&self, position: OutriggerPosition) -> (r: Option<&OutriggerConfig>)
        requires
            outrigger_system_wf(*self),
        ensures
            r is Some,
            spec_is_deployed(*r->0) == spec_is_deployed(self.outriggers@[spec_position_index(
                position)]),
            *r->0 == self.outriggers@[spec_position_index(position)],
    {
        let idx: usize = match position {
            OutriggerPosition::FrontLeft => 0,
            OutriggerPosition::FrontRight => 1,
            OutriggerPosition::RearLeft => 2,
            OutriggerPosition::RearRight => 3,
        };
        Some(&self.outriggers[idx])
    }

    /// Replace the horizontal extension of the outrigger at a position.
    pub fn set_extension(&mut self, position: OutriggerPosition, extension_mm: i64)
        requires
            outrigger_system_wf(*old(self)),
            0 <= extension_mm <= MAX_OUTRIGGER_MM,
        ensures
            outrigger_system_wf(*final(self)),
            final(self).outriggers@ == old(self).outriggers@.update(
                spec_position_index(position),
                (OutriggerConfig {
                    extension_mm,
                    ..old(self).outriggers@[spec_position_index(position)]
                }),
            ),
            final(self).crane_base_width_mm == old(self).crane_base_width_mm,
            final(self).crane_base_length_mm == old(self).crane_base_length_mm,
            final(self).all_required == old(self).all_required,
    {
        let idx: usize = match position {
            OutriggerPosition::FrontLeft => 0,
            OutriggerPosition::FrontRight => 1,
            OutriggerPosition::RearLeft => 2,
            OutriggerPosition::RearRight => 3,
        };
        self.outriggers[idx].extension_mm = extension_mm;
    }

    /// Replace the deployment state of the outrigger at a position.
    pub fn set_deployment(&mut self, position: OutriggerPosition, deployment: OutriggerDeployment)
        requires
            outrigger_system_wf(*old(self)),
        ensures
            outrigger_system_wf(*final(self)),
            final(self).outriggers@ == old(self).outriggers@.update(
                spec_position_index(position),
                (OutriggerConfig {
                    deployment,
                    ..old(self).outriggers@[spec_position_index(position)]
                }),
            ),
            final(self).crane_base_width_mm == old(self).crane_base_width_mm,
            final(self).crane_base_length_mm == old(self).crane_base_length_mm,
            final(self).all_required == old(self).all_required,
    {
        let idx: usize = match position {
            OutriggerPosition::FrontLeft => 0,
            OutriggerPosition::FrontRight => 1,
            OutriggerPosition::RearLeft => 2,
            OutriggerPosition::RearRight => 3,
        };
        self.outriggers[idx].deployment = deployment;
    }

    /// Whether all required outriggers are deployed: the conjunction over
    /// all four when `all_required`, else the disjunction.  False until the
    /// last required outrigger reaches the set-down state, true thereafter.
    pub fn all_deployed(&self) -> (r: bool)
        requires
            outrigger_system_wf(*self),
        ensures
            r == spec_all_deployed(*self),
    {
        let n = self.outriggers.len();
        if self.all_required {
            let mut i: usize = 0;
            while i < n
                invariant
                    0 <= i <= n,
                    n == self.outriggers@.len(),
                    outrigger_system_wf(*self),
                    self.all_required,
                    forall|j: int| 0 <= j < i ==> spec_is_deployed(#[trigger] self.outriggers@[j]),
                decreases n - i,
            {
                if !self.outriggers[i].is_deployed() {
                    proof {
                        assert(!spec_is_deployed(self.outriggers@[i as int]));
                    }
                    return false;
                }
                i = i + 1;
            }
            true
        } else {
            let mut i: usize = 0;
            while i < n
                invariant
                    0 <= i <= n,
                    n == self.outriggers@.len(),
                    outrigger_system_wf(*self),
                    !self.all_required,
                    forall|j: int| 0 <= j < i ==> !spec_is_deployed(#[trigger] self.outriggers@[j]),
                decreases n - i,
            {
                if self.outriggers[i].is_deployed() {
                    proof {
                        assert(spec_is_deployed(self.outriggers@[i as int]));
                    }
                    return true;
                }
                i = i + 1;
            }
            false
        }
    }

    /// The contact points of all deployed outriggers, in crane-local
    /// coordinates and position order; the result equals
    /// [`spec_contact_pairs`].
    pub fn get_all_contact_points(&self) -> (r: Vec<(OutriggerPosition, Point3Mm)>)
        requires
            outrigger_system_wf(*self),
        ensures
            r@ == spec_contact_pairs(self.outriggers@, self.crane_base_width_mm as int),
            r@.len() <= self.outriggers@.len(),
            forall|j: int| 0 <= j < r@.len() ==> -2 * MAX_OUTRIGGER_MM <= (#[trigger] r@[j]).1.x
                <= 2 * MAX_OUTRIGGER_MM && -2 * MAX_OUTRIGGER_MM <= r@[j].1.y <= 2
                * MAX_OUTRIGGER_MM,
    {
        let n = self.outriggers.len();
        let mut r: Vec<(OutriggerPosition, Point3Mm)> = Vec::new();
        let mut i: usize = 0;
        while i < n
            invariant
                0 <= i <= n,
                n == self.outriggers@.len(),
                outrigger_system_wf(*self),
                r@ == spec_contact_pairs(self.outriggers@.take(i as int),
                    self.crane_base_width_mm as int),
                r@.len() <= i,
                forall|j: int| 0 <= j < r@.len() ==> -2 * MAX_OUTRIGGER_MM <= (
                #[trigger] r@[j]).1.x <= 2 * MAX_OUTRIGGER_MM && -2 * MAX_OUTRIGGER_MM
                    <= r@[j].1.y <= 2 * MAX_OUTRIGGER_MM,
            decreases n - i,
        {
            let o = self.outriggers[i];
            if o.is_deployed() {
                let p = o.get_contact_point(self.crane_base_width_mm);
                r.push((o.position, p));
            }
            proof {
                let taken = self.outriggers@.take(i as int + 1);
                assert(taken.drop_last() =~= self.outriggers@.take(i as int));
                assert(taken.last() == self.outriggers@[i as int]);
            }
            i = i + 1;
        }
        proof {
            assert(self.outriggers@.take(n as int) =~= self.outriggers@);
        }
        r
    }

    /// Validate the system: each outrigger's extension range first, then,
    /// when all outriggers are required, that all are deployed.  Fail-fast:
    /// the first violated constraint is returned, in outrigger order.
    pub fn validate(&self) -> (r: Result<(), CraneConfigError>)
        requires
            outrigger_system_wf(*self),
        ensures
            r is Ok <==> ((forall|i: int| 0 <= i < self.outriggers@.len()
                ==> spec_extension_ok(#[trigger] self.outriggers@[i]))
                && (self.all_required ==> spec_all_deployed(*self))),
            r is Err ==> r->Err_0 is OutriggerExtensionInvalid || r->Err_0 is UnsafeConfiguration,
            forall|i: int| 0 <= i < self.outriggers@.len() && !spec_extension_ok(
                #[trigger] self.outriggers@[i]) && (forall|j: int| 0 <= j < i
                ==> spec_extension_ok(#[trigger] self.outriggers@[j])) ==> r is Err && r->Err_0
                == (CraneConfigError::OutriggerExtensionInvalid {
                extension_mm: self.outriggers@[i].extension_mm,
                min_mm: self.outriggers@[i].min_extension_mm,
                max_mm: self.outriggers@[i].max_extension_mm,
            }),
            (forall|i: int| 0 <= i < self.outriggers@.len() ==> spec_extension_ok(
                #[trigger] self.outriggers@[i])) && self.all_required && !spec_all_deployed(*self)
                ==> r is Err && (r->Err_0 matches CraneConfigError::UnsafeConfiguration { reason }
                && reason@ == "Not all required outriggers are deployed"@),
    {
        let n = self.outriggers.len();
        let mut i: usize = 0;
        while i < n
            invariant
                0 <= i <= n,
                n == self.outriggers@.len(),
                outrigger_system_wf(*self),
                forall|j: int| 0 <= j < i ==> spec_extension_ok(#[trigger] self.outriggers@[j]),
            decreases n - i,
        {
            let o = &self.outriggers[i];
            match o.validate() {
                Ok(()) => {},
                Err(e) => {
                    return Err(e);
                },
            }
            i = i + 1;
        }
        if self.all_required && !self.all_deployed() {
            return Err(CraneConfigError::UnsafeConfiguration {
                reason: String::from_str("Not all required outriggers are deployed"),
            });
        }
        Ok(())
    }
}

/// The horizontal extension lies within the outrigger's allowed range.
pub open spec fn spec_extension_ok(o: OutriggerConfig) -> bool {
    o.min_extension_mm <= o.extension_mm <= o.max_extension_mm
}

/// The index each position occupies in a well-formed system.
pub open spec fn spec_position_index(p: OutriggerPosition) -> int {
    match p {
        OutriggerPosition::FrontLeft => 0,
        OutriggerPosition::FrontRight => 1,
        OutriggerPosition::RearLeft => 2,
        OutriggerPosition::RearRight => 3,
    }
}


/// The bounding-rectangle area of exactly four contact points; any other
/// count yields zero.  A true polygon area is deliberately not computed.
pub open spec fn spec_support_area(pairs: Seq<(OutriggerPosition, Point3Mm)>) -> int {
    if pairs.len() == 4 {
        let xs = Seq::new(4, |j: int| pairs[j].1.x as int);
        let ys = Seq::new(4, |j: int| pairs[j].1.y as int);
        (seq_max4(xs) - seq_min4(xs)) * (seq_max4(ys) - seq_min4(ys))
    } else {
        0
    }
}

/// The greatest of four values.
pub open spec fn seq_max4(s: Seq<int>) -> int {
    max2(max2(s[0], s[1]), max2(s[2], s[3]))
}

/// The least of four values.
pub open spec fn seq_min4(s: Seq<int>) -> int {
    min2(min2(s[0], s[1]), min2(s[2], s[3]))
}

/// The greater of two values.
pub open spec fn max2(a: int, b: int) -> int {
    if a >= b {
        a
    } else {
        b
    }
}

/// The lesser of two values.
pub open spec fn min2(a: int, b: int) -> int {
    if a <= b {
        a
    } else {
        b
    }
}

impl OutriggerSystem {
    /// The effective support base in square millimetres: the bounding
    /// rectangle of the four deployed contact points.  With any other number
    /// of deployed outriggers the area is reported as zero; the result
    /// equals [`spec_support_area`] of the deployed contact points.
    pub fn calculate_support_area(&self) -> (r: i64)
        requires
            outrigger_system_wf(*self),
        ensures
            r == spec_support_area(spec_contact_pairs(self.outriggers@,
                self.crane_base_width_mm as int)),
            r >= 0,
    {
        let pairs = self.get_all_contact_points();
        if pairs.len() != 4 {
            return 0;
        }
        let x0 = pairs[0].1.x;
        let x1 = pairs[1].1.x;
        let x2 = pairs[2].1.x;
        let x3 = pairs[3].1.x;
        let y0 = pairs[0].1.y;
        let y1 = pairs[1].1.y;
        let y2 = pairs[2].1.y;
        let y3 = pairs[3].1.y;
        let max_x = max_i64(max_i64(x0, x1), max_i64(x2, x3));
        let min_x = min_i64(min_i64(x0, x1), min_i64(x2, x3));
        let max_y = max_i64(max_i64(y0, y1), max_i64(y2, y3));
        let min_y = min_i64(min_i64(y0, y1), min_i64(y2, y3));
        let w: i64 = max_x - min_x;
        let l: i64 = max_y - min_y;
        proof {
            let ghost pseq = spec_contact_pairs(self.outriggers@, self.crane_base_width_mm as int);
            let xs = Seq::new(4, |j: int| pseq[j].1.x as int);
            let ys = Seq::new(4, |j: int| pseq[j].1.y as int);
            assert(xs[0] == x0 && xs[1] == x1 && xs[2] == x2 && xs[3] == x3);
            assert(ys[0] == y0 && ys[1] == y1 && ys[2] == y2 && ys[3] == y3);
            assert(0 <= (w as int) * (l as int) <= 64_000_000_000_000) by (nonlinear_arith)
                requires 0 <= w <= 8_000_000 && 0 <= l <= 8_000_000;
        }
        w * l
    }

    /// Set every outrigger to full horizontal extension and jack it down:
    /// the most stable configuration.
    pub fn preset_max_extension(&mut self)
        requires
            outrigger_system_wf(*old(self)),
        ensures
            outrigger_system_wf(*final(self)),
            final(self).outriggers@.len() == old(self).outriggers@.len(),
            forall|i: int| 0 <= i < old(self).outriggers@.len()
                ==> #[trigger] final(self).outriggers@[i] == (OutriggerConfig {
                extension_mm: old(self).outriggers@[i].max_extension_mm,
                deployment: OutriggerDeployment::SetDown { jack_extension_mm: 500 },
                ..old(self).outriggers@[i]
            }),
            final(self).crane_base_width_mm == old(self).crane_base_width_mm,
            final(self).crane_base_length_mm == old(self).crane_base_length_mm,
            final(self).all_required == old(self).all_required,
    {
        let n = self.outriggers.len();
        let mut i: usize = 0;
        while i < n
            invariant
                0 <= i <= n,
                n == self.outriggers@.len(),
                n == old(self).outriggers@.len(),
                outrigger_system_wf(*old(self)),
                self.crane_base_width_mm == old(self).crane_base_width_mm,
                self.crane_base_length_mm == old(self).crane_base_length_mm,
                self.all_required == old(self).all_required,
                forall|j: int| 0 <= j < i ==> #[trigger] self.outriggers@[j] == (OutriggerConfig {
                    extension_mm: old(self).outriggers@[j].max_extension_mm,
                    deployment: OutriggerDeployment::SetDown { jack_extension_mm: 500 },
                    ..old(self).outriggers@[j]
                }),
                forall|j: int| i <= j < n ==> #[trigger] self.outriggers@[j] == old(
                    self).outriggers@[j],
            decreases n - i,
        {
            let max = self.outriggers[i].max_extension_mm;
            self.outriggers[i].extension_mm = max;
            self.outriggers[i].deployment = OutriggerDeployment::SetDown {
                jack_extension_mm: 500,
            };
            i = i + 1;
        }
    }

    /// Set every outrigger to three quarters of its maximum extension and
    /// jack it down: a good middle configuration.
    pub fn preset_medium_extension(&mut self)
        requires
            outrigger_system_wf(*old(self)),
        ensures
            outrigger_system_wf(*final(self)),
            final(self).outriggers@.len() == old(self).outriggers@.len(),
            forall|i: int| 0 <= i < old(self).outriggers@.len()
                ==> #[trigger] final(self).outriggers@[i] == (OutriggerConfig {
                extension_mm: (old(self).outriggers@[i].max_extension_mm as int * 3 / 4) as i64,
                deployment: OutriggerDeployment::SetDown { jack_extension_mm: 500 },
                ..old(self).outriggers@[i]
            }),
            final(self).crane_base_width_mm == old(self).crane_base_width_mm,
            final(self).crane_base_length_mm == old(self).crane_base_length_mm,
            final(self).all_required == old(self).all_required,
    {
        let n = self.outriggers.len();
        let mut i: usize = 0;
        while i < n
            invariant
                0 <= i <= n,
                n == self.outriggers@.len(),
                n == old(self).outriggers@.len(),
                outrigger_system_wf(*old(self)),
                self.crane_base_width_mm == old(self).crane_base_width_mm,
                self.crane_base_length_mm == old(self).crane_base_length_mm,
                self.all_required == old(self).all_required,
                forall|j: int| 0 <= j < i ==> #[trigger] self.outriggers@[j] == (OutriggerConfig {
                    extension_mm: (old(self).outriggers@[j].max_extension_mm as int * 3 / 4) as i64,
                    deployment: OutriggerDeployment::SetDown { jack_extension_mm: 500 },
                    ..old(self).outriggers@[j]
                }),
                forall|j: int| i <= j < n ==> #[trigger] self.outriggers@[j] == old(
                    self).outriggers@[j],
            decreases n - i,
        {
            let max = self.outriggers[i].max_extension_mm;
            let medium: i64 = (((max as u64) * 3) / 4) as i64;
            self.outriggers[i].extension_mm = medium;
            self.outriggers[i].deployment = OutriggerDeployment::SetDown {
                jack_extension_mm: 500,
            };
            i = i + 1;
        }
    }

    /// Set every outrigger to its minimum extension and jack it down:
    /// reduced capacity.
    pub fn preset_min_extension(&mut self)
        requires
            outrigger_system_wf(*old(self)),
        ensures
            outrigger_system_wf(*final(self)),
            final(self).outriggers@.len() == old(self).outriggers@.len(),
            forall|i: int| 0 <= i < old(self).outriggers@.len()
                ==> #[trigger] final(self).outriggers@[i] == (OutriggerConfig {
                extension_mm: old(self).outriggers@[i].min_extension_mm,
                deployment: OutriggerDeployment::SetDown { jack_extension_mm: 500 },
                ..old(self).outriggers@[i]
            }),
            final(self).crane_base_width_mm == old(self).crane_base_width_mm,
            final(self).crane_base_length_mm == old(self).crane_base_length_mm,
            final(self).all_required == old(self).all_required,
    {
        let n = self.outriggers.len();
        let mut i: usize = 0;
        while i < n
            invariant
                0 <= i <= n,
                n == self.outriggers@.len(),
                n == old(self).outriggers@.len(),
                outrigger_system_wf(*old(self)),
                self.crane_base_width_mm == old(self).crane_base_width_mm,
                self.crane_base_length_mm == old(self).crane_base_length_mm,
                self.all_required == old(self).all_required,
                forall|j: int| 0 <= j < i ==> #[trigger] self.outriggers@[j] == (OutriggerConfig {
                    extension_mm: old(self).outriggers@[j].min_extension_mm,
                    deployment: OutriggerDeployment::SetDown { jack_extension_mm: 500 },
                    ..old(self).outriggers@[j]
                }),
                forall|j: int| i <= j < n ==> #[trigger] self.outriggers@[j] == old(
                    self).outriggers@[j],
            decreases n - i,
        {
            let min = self.outriggers[i].min_extension_mm;
            self.outriggers[i].extension_mm = min;
            self.outriggers[i].deployment = OutriggerDeployment::SetDown {
                jack_extension_mm: 500,
            };
            i = i + 1;
        }
    }

    /// Retract every outrigger: travel mode, no lifting support.
    pub fn preset_on_tires(&mut self)
        requires
            outrigger_system_wf(*old(self)),
        ensures
            outrigger_system_wf(*final(self)),
            final(self).outriggers@.len() == old(self).outriggers@.len(),
            forall|i: int| 0 <= i < old(self).outriggers@.len()
                ==> #[trigger] final(self).outriggers@[i] == (OutriggerConfig {
                deployment: OutriggerDeployment::Retracted,
                ..old(self).outriggers@[i]
            }),
            final(self).crane_base_width_mm == old(self).crane_base_width_mm,
            final(self).crane_base_length_mm == old(self).crane_base_length_mm,
            final(self).all_required == old(self).all_required,
    {
        let n = self.outriggers.len();
        let mut i: usize = 0;
        while i < n
            invariant
                0 <= i <= n,
                n == self.outriggers@.len(),
                n == old(self).outriggers@.len(),
                outrigger_system_wf(*old(self)),
                self.crane_base_width_mm == old(self).crane_base_width_mm,
                self.crane_base_length_mm == old(self).crane_base_length_mm,
                self.all_required == old(self).all_required,
                forall|j: int| 0 <= j < i ==> #[trigger] self.outriggers@[j] == (OutriggerConfig {
                    deployment: OutriggerDeployment::Retracted,
                    ..old(self).outriggers@[j]
                }),
                forall|j: int| i <= j < n ==> #[trigger] self.outriggers@[j] == old(
                    self).outriggers@[j],
            decreases n - i,
        {
            self.outriggers[i].deployment = OutriggerDeployment::Retracted;
            i = i + 1;
        }
    }
}

/// The greater of two lengths.
fn max_i64(a: i64, b: i64) -> (r: i64)
    ensures
        r == max2(a as int, b as int),
{
    if a >= b {
        a
    } else {
        b
    }
}

/// The lesser of two lengths.
fn min_i64(a: i64, b: i64) -> (r: i64)
    ensures
        r == min2(a as int, b as int),
{
    if a <= b {
        a
    } else {
        b
    }
}

} // verus!
