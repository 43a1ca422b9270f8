//! The counterweight subsystem: removable mass slabs that offset the load
//! moment.
//!
//! Adding and setting slabs enforces only the slab-count ceiling;
//! [`CounterweightConfig::validate`] separately checks the weight envelope,
//! so a slab can be added without an immediate weight-bound check.

use vstd::prelude::*;
use crate::errors::CraneConfigError;
use crate::text::{spec_udec, udec_string};

verus! {

/// Heaviest single slab accepted: 1 000 t.
pub const MAX_SLAB_KG: i64 = 1_000_000;

/// Most slabs a configuration may allow.
pub const MAX_SLAB_COUNT: usize = 1000;

/// Longest moment arm accepted: 1 km.
pub const MAX_ARM_MM: i64 = 1_000_000;

/// Individual counterweight slab.
#[derive(Clone, Debug)]
pub struct CounterweightSlab {
    pub id: String,
    pub weight_kg: i64,
    /// Position in the stack; zero is closest to the crane.
    pub position_index: usize,
}

/// Complete counterweight configuration.
#[derive(Clone, Debug)]
pub struct CounterweightConfig {
    /// The slabs installed.
    pub slabs: Vec<CounterweightSlab>,
    /// Weight of one standard slab.
    pub standard_slab_weight_kg: i64,
    /// Most slabs allowed.
    pub max_slabs: usize,
    /// Least counterweight any lift needs.
    pub min_counterweight_kg: i64,
    /// Most counterweight the crane can carry.
    pub max_counterweight_kg: i64,
    /// Distance from the crane centre to the counterweight's centre of mass.
    pub moment_arm_mm: i64,
}

/// Total weight of a stack of slabs.
pub open spec fn spec_total_weight(s: Seq<CounterweightSlab>) -> int
    decreases s.len(),
{
    if s.len() == 0 {
        0
    } else {
        spec_total_weight(s.drop_last()) + s.last().weight_kg
    }
}

/// The identifier a slab gets from its one-based position.
pub open spec fn spec_slab_id(n: int) -> Seq<char> {
    "slab_"@ + spec_udec(n)
}

/// A well-formed counterweight configuration: bounded slab weights, count
/// ceiling within the engine's bounds.
pub open spec fn counterweight_wf(c: CounterweightConfig) -> bool {
    &&& forall|i: int| 0 <= i < c.slabs@.len() ==> 0 <= (#[trigger] c.slabs@[i]).weight_kg
        <= MAX_SLAB_KG
    &&& c.slabs@.len() <= MAX_SLAB_COUNT
    &&& 0 <= c.standard_slab_weight_kg <= MAX_SLAB_KG
    &&& c.max_slabs <= MAX_SLAB_COUNT
    &&& 0 <= c.min_counterweight_kg <= 1_000_000_000
    &&& 0 <= c.max_counterweight_kg <= 1_000_000_000
    &&& 0 <= c.moment_arm_mm <= MAX_ARM_MM
}

/// The error [`CounterweightConfig::validate`] reports: a weight outside
/// the envelope is checked first and reported with the totals; only then a
/// stack over the slab ceiling.
pub open spec fn spec_counterweight_error(c: CounterweightConfig, e: CraneConfigError) -> bool {
    let total = spec_total_weight(c.slabs@);
    if !(c.min_counterweight_kg <= total <= c.max_counterweight_kg) {
        e == (CraneConfigError::CounterweightInvalid {
            weight_kg: total as i64,
            min_kg: c.min_counterweight_kg,
            max_kg: c.max_counterweight_kg,
        })
    } else {
        e matches CraneConfigError::UnsafeConfiguration { reason } && reason@
            == "Too many counterweight slabs: "@ + spec_udec(c.slabs@.len() as int) + " > "@
            + spec_udec(c.max_slabs as int)
    }
}

/// A bounded stack weighs at most the slab bound times the count.
proof fn lemma_total_weight_bound(s: Seq<CounterweightSlab>)
    requires
        forall|i: int| 0 <= i < s.len() ==> 0 <= (#[trigger] s[i]).weight_kg <= MAX_SLAB_KG,
    ensures
        0 <= spec_total_weight(s) <= s.len() * MAX_SLAB_KG,
    decreases s.len(),
{
    if s.len() == 0 {
    } else {
        let t = s.drop_last();
        assert(forall|i: int| 0 <= i < t.len() ==> t[i] == s[i]);
        lemma_total_weight_bound(t);
        assert((s.len() - 1) * MAX_SLAB_KG + MAX_SLAB_KG == s.len() * MAX_SLAB_KG)
            by (nonlinear_arith);
    }
}

impl CounterweightConfig {
    /// An empty stack: the minimum is one standard slab, the maximum the
    /// full count of standard slabs.
    pub fn new(standard_slab_weight_kg: i64, max_slabs: usize, moment_arm_mm: i64) -> (c:
        CounterweightConfig)
        requires
            0 <= standard_slab_weight_kg <= MAX_SLAB_KG,
            max_slabs <= MAX_SLAB_COUNT,
            0 <= moment_arm_mm <= MAX_ARM_MM,
        ensures
            counterweight_wf(c),
            c.slabs@.len() == 0,
            c.standard_slab_weight_kg == standard_slab_weight_kg,
            c.max_slabs == max_slabs,
            c.min_counterweight_kg == standard_slab_weight_kg,
            c.max_counterweight_kg == standard_slab_weight_kg * max_slabs,
            c.moment_arm_mm == moment_arm_mm,
    {
        proof {
            assert(0 <= (standard_slab_weight_kg as int) * (max_slabs as int) <= 1_000_000_000)
                by (nonlinear_arith)
                requires 0 <= standard_slab_weight_kg <= 1_000_000 && 0 <= max_slabs <= 1000;
        }
        let max_counterweight_kg: i64 = standard_slab_weight_kg * (max_slabs as i64);
        CounterweightConfig {
            slabs: Vec::new(),
            standard_slab_weight_kg,
            max_slabs,
            min_counterweight_kg: standard_slab_weight_kg,
            max_counterweight_kg,
            moment_arm_mm,
        }
    }

    /// The total counterweight mass: the sum of the slab weights.
    pub fn get_total_weight_kg(&self) -> (r: i64)
        requires
            counterweight_wf(*self),
        ensures
            r == spec_total_weight(self.slabs@),
            0 <= r <= 1_000_000_000,
    {
        proof {
            lemma_total_weight_bound(self.slabs@);
            assert(self.slabs@.len() * MAX_SLAB_KG <= 1000 * MAX_SLAB_KG) by (nonlinear_arith)
                requires self.slabs@.len() <= 1000;
        }
        let n = self.slabs.len();
        let mut total: i64 = 0;
        let mut i: usize = 0;
        while i < n
            invariant
                0 <= i <= n,
                n == self.slabs@.len(),
                counterweight_wf(*self),
                total == spec_total_weight(self.slabs@.take(i as int)),
                0 <= total <= 1_000_000_000,
            decreases n - i,
        {
            proof {
                lemma_total_weight_bound(self.slabs@.take(i as int + 1));
                assert(self.slabs@.take(i as int + 1).len() * MAX_SLAB_KG <= 1000 * MAX_SLAB_KG)
                    by (nonlinear_arith)
                    requires self.slabs@.take(i as int + 1).len() <= 1000;
                assert(self.slabs@.take(i as int + 1).drop_last() =~= self.slabs@.take(i as int));
                assert(self.slabs@.take(i as int + 1).last() == self.slabs@[i as int]);
            }
            total = total + self.slabs[i].weight_kg;
            i = i + 1;
        }
        proof {
            assert(self.slabs@.take(n as int) =~= self.slabs@);
        }
        total
    }

    /// How many slabs are installed.
    pub fn get_slab_count(&self) -> (r: usize)
        ensures
            r == self.slabs@.len(),
    {
        self.slabs.len()
    }

    /// Add one standard slab on top of the stack.  Fails if and only if the
    /// stack already holds the most slabs allowed; the weight envelope is
    /// not checked here.
    pub fn add_slab(&mut self) -> (r: Result<(), CraneConfigError>)
        requires
            counterweight_wf(*old(self)),
        ensures
            counterweight_wf(*final(self)),
            r is Ok <==> old(self).slabs@.len() < old(self).max_slabs,
            r is Err ==> *final(self) == *old(self) && (r->Err_0 matches
                CraneConfigError::UnsafeConfiguration { reason } && reason@
                == "Cannot add more than "@ + spec_udec(old(self).max_slabs as int)
                + " counterweight slabs"@),
            r is Ok ==> final(self).slabs@.len() == old(self).slabs@.len() + 1
                && (forall|i: int| 0 <= i < old(self).slabs@.len()
                ==> #[trigger] final(self).slabs@[i] == old(self).slabs@[i])
                && final(self).slabs@.last().id@ == spec_slab_id(old(self).slabs@.len() as int + 1)
                && final(self).slabs@.last().weight_kg == old(self).standard_slab_weight_kg
                && final(self).slabs@.last().position_index == old(self).slabs@.len(),
            final(self).standard_slab_weight_kg == old(self).standard_slab_weight_kg,
            final(self).max_slabs == old(self).max_slabs,
            final(self).min_counterweight_kg == old(self).min_counterweight_kg,
            final(self).max_counterweight_kg == old(self).max_counterweight_kg,
            final(self).moment_arm_mm == old(self).moment_arm_mm,
    {
        let n = self.slabs.len();
        if n >= self.max_slabs {
            let mut reason = String::from_str("Cannot add more than ");
            reason.append(udec_string(self.max_slabs as u64).as_str());
            reason.append(" counterweight slabs");
            return Err(CraneConfigError::UnsafeConfiguration { reason });
        }
        let mut id = String::from_str("slab_");
        id.append(udec_string((n + 1) as u64).as_str());
        proof {
            assert(id@ == spec_slab_id(n as int + 1));
        }
        let slab = CounterweightSlab {
            id,
            weight_kg: self.standard_slab_weight_kg,
            position_index: n,
        };
        self.slabs.push(slab);
        Ok(())
    }

    /// Remove and return the top slab, if any.
    pub fn remove_slab(&mut self) -> (r: Option<CounterweightSlab>)
        requires
            counterweight_wf(*old(self)),
        ensures
            counterweight_wf(*final(self)),
            old(self).slabs@.len() == 0 ==> r is None && final(self).slabs@ == old(self).slabs@,
            old(self).slabs@.len() > 0 ==> r is Some && r->0 == old(self).slabs@.last()
                && final(self).slabs@ == old(self).slabs@.drop_last(),
            final(self).standard_slab_weight_kg == old(self).standard_slab_weight_kg,
            final(self).max_slabs == old(self).max_slabs,
            final(self).min_counterweight_kg == old(self).min_counterweight_kg,
            final(self).max_counterweight_kg == old(self).max_counterweight_kg,
            final(self).moment_arm_mm == old(self).moment_arm_mm,
    {
        self.slabs.pop()
    }

    /// Replace the stack with `count` standard slabs.  Fails if and only if
    /// `count` exceeds the slab ceiling, and then leaves the stack
    /// unchanged; on success the stack holds exactly `count` slabs.
    pub fn set_slab_count(&mut self, count: usize) -> (r: Result<(), CraneConfigError>)
        requires
            counterweight_wf(*old(self)),
        ensures
            counterweight_wf(*final(self)),
            r is Ok <==> count <= old(self).max_slabs,
            r is Err ==> *final(self) == *old(self) && r->Err_0 == (
            CraneConfigError::CounterweightInvalid {
                weight_kg: if count <= 1_000_000_000 {
                    (count * old(self).standard_slab_weight_kg as int) as i64
                } else {
                    0x7fff_ffff_ffff_ffff
                },
                min_kg: old(self).min_counterweight_kg,
                max_kg: old(self).max_counterweight_kg,
            }),
            r is Ok ==> final(self).slabs@.len() == count
                && (forall|i: int| 0 <= i < count ==> (#[trigger] final(self).slabs@[i]).id@
                == spec_slab_id(i + 1) && final(self).slabs@[i].weight_kg == old(
                self).standard_slab_weight_kg && final(self).slabs@[i].position_index == i),
            final(self).standard_slab_weight_kg == old(self).standard_slab_weight_kg,
            final(self).max_slabs == old(self).max_slabs,
            final(self).min_counterweight_kg == old(self).min_counterweight_kg,
            final(self).max_counterweight_kg == old(self).max_counterweight_kg,
            final(self).moment_arm_mm == old(self).moment_arm_mm,
    {
        if count > self.max_slabs {
            let weight_kg: i64 = if count <= 1_000_000_000 {
                proof {
                    assert(0 <= (count as int) * (self.standard_slab_weight_kg as int)
                        <= 1_000_000_000_000_000) by (nonlinear_arith)
                        requires
                            0 <= count <= 1_000_000_000
                                && 0 <= self.standard_slab_weight_kg <= 1_000_000;
                }
                (count as i64) * self.standard_slab_weight_kg
            } else {
                i64::MAX
            };
            return Err(CraneConfigError::CounterweightInvalid {
                weight_kg,
                min_kg: self.min_counterweight_kg,
                max_kg: self.max_counterweight_kg,
            });
        }
        self.slabs.clear();
        let mut i: usize = 0;
        while i < count
            invariant
                0 <= i <= count,
                count <= old(self).max_slabs,
                counterweight_wf(*self),
                self.slabs@.len() == i,
                self.standard_slab_weight_kg == old(self).standard_slab_weight_kg,
                self.max_slabs == old(self).max_slabs,
                self.min_counterweight_kg == old(self).min_counterweight_kg,
                self.max_counterweight_kg == old(self).max_counterweight_kg,
                self.moment_arm_mm == old(self).moment_arm_mm,
                forall|j: int| 0 <= j < i ==> (#[trigger] self.slabs@[j]).id@ == spec_slab_id(j + 1)
                    && self.slabs@[j].weight_kg == self.standard_slab_weight_kg
                    && self.slabs@[j].position_index == j,
            decreases count - i,
        {
            let mut id = String::from_str("slab_");
            id.append(udec_string((i + 1) as u64).as_str());
            proof {
                assert(id@ == spec_slab_id(i as int + 1));
            }
            self.slabs.push(CounterweightSlab {
                id,
                weight_kg: self.standard_slab_weight_kg,
                position_index: i,
            });
            i = i + 1;
        }
        Ok(())
    }

    /// The counterweight moment about the crane centre, in
    /// kilogram-millimetres.
    pub fn calculate_moment(&self) -> (r: i64)
        requires
            counterweight_wf(*self),
        ensures
            r == spec_total_weight(self.slabs@) * self.moment_arm_mm,
            r >= 0,
    {
        let total = self.get_total_weight_kg();
        proof {
            assert(0 <= (total as int) * (self.moment_arm_mm as int)
                <= 1_000_000_000_000_000) by (nonlinear_arith)
                requires 0 <= total <= 1_000_000_000 && 0 <= self.moment_arm_mm <= 1_000_000;
        }
        total * self.moment_arm_mm
    }

    /// Validate the weight envelope and the slab ceiling: the total weight
    /// must lie between the minimum and maximum counterweight, and the
    /// count must not exceed the ceiling.  Fail-fast: the weight envelope is
    /// checked first.
    pub fn validate(&self) -> (r: Result<(), CraneConfigError>)
        requires
            counterweight_wf(*self),
        ensures
            r is Ok <==> (self.min_counterweight_kg <= spec_total_weight(self.slabs@)
                <= self.max_counterweight_kg && self.slabs@.len() <= self.max_slabs),
            r is Err ==> r->Err_0 is CounterweightInvalid || r->Err_0 is UnsafeConfiguration,
            r is Err ==> spec_counterweight_error(*self, r->Err_0),
    {
        let total = self.get_total_weight_kg();
        if total < self.min_counterweight_kg || total > self.max_counterweight_kg {
            return Err(CraneConfigError::CounterweightInvalid {
                weight_kg: total,
                min_kg: self.min_counterweight_kg,
                max_kg: self.max_counterweight_kg,
            });
        }
        if self.slabs.len() > self.max_slabs {
            let mut reason = String::from_str("Too many counterweight slabs: ");
            reason.append(udec_string(self.slabs.len() as u64).as_str());
            reason.append(" > ");
            reason.append(udec_string(self.max_slabs as u64).as_str());
            return Err(CraneConfigError::UnsafeConfiguration { reason });
        }
        Ok(())
    }

    /// The heaviest configuration: the full count of standard slabs.
    pub fn preset_max(&mut self) -> (r: Result<(), CraneConfigError>)
        requires
            counterweight_wf(*old(self)),
        ensures
            counterweight_wf(*final(self)),
            r is Ok,
            final(self).slabs@.len() == old(self).max_slabs,
            forall|i: int| 0 <= i < final(self).slabs@.len() ==> (
            #[trigger] final(self).slabs@[i]).id@ == spec_slab_id(i + 1)
                && final(self).slabs@[i].weight_kg == old(self).standard_slab_weight_kg
                && final(self).slabs@[i].position_index == i,
            final(self).max_slabs == old(self).max_slabs,
            final(self).standard_slab_weight_kg == old(self).standard_slab_weight_kg,
            final(self).min_counterweight_kg == old(self).min_counterweight_kg,
            final(self).max_counterweight_kg == old(self).max_counterweight_kg,
            final(self).moment_arm_mm == old(self).moment_arm_mm,
    {
        let count = self.max_slabs;
        self.set_slab_count(count)
    }

    /// A typical configuration: half the slab ceiling.
    pub fn preset_medium(&mut self) -> (r: Result<(), CraneConfigError>)
        requires
            counterweight_wf(*old(self)),
        ensures
            counterweight_wf(*final(self)),
            r is Ok,
            final(self).slabs@.len() == old(self).max_slabs / 2,
            forall|i: int| 0 <= i < final(self).slabs@.len() ==> (
            #[trigger] final(self).slabs@[i]).id@ == spec_slab_id(i + 1)
                && final(self).slabs@[i].weight_kg == old(self).standard_slab_weight_kg
                && final(self).slabs@[i].position_index == i,
            final(self).max_slabs == old(self).max_slabs,
            final(self).standard_slab_weight_kg == old(self).standard_slab_weight_kg,
            final(self).min_counterweight_kg == old(self).min_counterweight_kg,
            final(self).max_counterweight_kg == old(self).max_counterweight_kg,
            final(self).moment_arm_mm == old(self).moment_arm_mm,
    {
        let count = self.max_slabs / 2;
        self.set_slab_count(count)
    }

    /// The lightest configuration: a single slab.  Fails if and only if the
    /// crane allows no slab at all.
    pub fn preset_min(&mut self) -> (r: Result<(), CraneConfigError>)
        requires
            counterweight_wf(*old(self)),
        ensures
            counterweight_wf(*final(self)),
            r is Ok <==> old(self).max_slabs >= 1,
            r is Ok ==> final(self).slabs@.len() == 1 && final(self).slabs@[0].id@
                == spec_slab_id(1) && final(self).slabs@[0].weight_kg == old(
                self).standard_slab_weight_kg && final(self).slabs@[0].position_index == 0,
            r is Err ==> *final(self) == *old(self),
            final(self).max_slabs == old(self).max_slabs,
            final(self).standard_slab_weight_kg == old(self).standard_slab_weight_kg,
            final(self).min_counterweight_kg == old(self).min_counterweight_kg,
            final(self).max_counterweight_kg == old(self).max_counterweight_kg,
            final(self).moment_arm_mm == old(self).moment_arm_mm,
    {
        self.set_slab_count(1)
    }
}

} // verus!
