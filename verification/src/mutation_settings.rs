//! Mutation configuration: the per-individual mutation probability and
//! ratio templates validated and turned into a bounded count range plus a
//! weighted sampler over the operator variants.

use vstd::prelude::*;

use crate::arith::{ratio_scaled, scale_count};
use crate::error::BrainsError;
use crate::fbits::{le_bits, lt_bits, valid_ratio_bits};
use crate::nn::{total_weights_spec, LayerModel, NeuralNetwork, net_wf};
use crate::rng::rand_range_usize;
use crate::sampler::{alias_accepts, WeightedSampler};

verus! {

/// One way of perturbing a single weight; the bounds are bit patterns.
#[derive(Clone, Copy, Debug, PartialEq, Eq, Structural)]
pub enum MutationMethod {
    /// Negate the weight.
    Invert,
    /// Overwrite it with a uniform draw in [min, max).
    Replace(u64, u64),
    /// Multiply it by a uniform draw in [min, max).
    Scale(u64, u64),
    /// Add a uniform draw in [min, max).
    Shift(u64, u64),
}

/// A mutation method together with its relative draw weight, as a bit
/// pattern.
#[derive(Clone, Copy, Debug, PartialEq, Eq, Structural)]
pub struct MutationMethodProbability {
    pub method: MutationMethod,
    pub relative_probability: u64,
}

/// The ratio-based mutation template, before validation.
pub struct MutationSettingsTemplate {
    pub mutation_probability: u64,
    pub min_weights_affected_ratio: u64,
    pub max_weights_affected_ratio: u64,
    pub methods: Vec<MutationMethodProbability>,
}

impl Default for MutationSettingsTemplate {
    /// Mutate roughly every third individual, touching up to a fifth of
    /// its weights; scaling is the most likely operator, then shifting,
    /// replacing, and inverting.
    fn default() -> (r: Self)
        ensures
            r.mutation_probability == 0x3FD3_3333_3333_3333u64,
            r.min_weights_affected_ratio == 0u64,
            r.max_weights_affected_ratio == 0x3FC9_9999_9999_999Au64,
            r.methods@.len() == 4,
            r.methods@[0] == (MutationMethodProbability {
                method: MutationMethod::Invert,
                relative_probability: 0x3FE0_0000_0000_0000u64,
            }),
            r.methods@[1] == (MutationMethodProbability {
                method: MutationMethod::Replace(0xC000_0000_0000_0000u64, 0x4000_0000_0000_0000u64),
                relative_probability: 0x3FF0_0000_0000_0000u64,
            }),
            r.methods@[2] == (MutationMethodProbability {
                method: MutationMethod::Scale(0xC000_0000_0000_0000u64, 0x4000_0000_0000_0000u64),
                relative_probability: 0x4010_0000_0000_0000u64,
            }),
            r.methods@[3] == (MutationMethodProbability {
                method: MutationMethod::Shift(0xC000_0000_0000_0000u64, 0x4000_0000_0000_0000u64),
                relative_probability: 0x4000_0000_0000_0000u64,
            }),
    {
        let mut methods: Vec<MutationMethodProbability> = Vec::new();
        methods.push(MutationMethodProbability {
            method: MutationMethod::Invert,
            // the pattern of 0.5
            relative_probability: 0x3FE0_0000_0000_0000,
        });
        methods.push(MutationMethodProbability {
            // the patterns of -2.0 and 2.0
            method: MutationMethod::Replace(0xC000_0000_0000_0000, 0x4000_0000_0000_0000),
            // the pattern of 1.0
            relative_probability: 0x3FF0_0000_0000_0000,
        });
        methods.push(MutationMethodProbability {
            method: MutationMethod::Scale(0xC000_0000_0000_0000, 0x4000_0000_0000_0000),
            // the pattern of 4.0
            relative_probability: 0x4010_0000_0000_0000,
        });
        methods.push(MutationMethodProbability {
            method: MutationMethod::Shift(0xC000_0000_0000_0000, 0x4000_0000_0000_0000),
            // the pattern of 2.0
            relative_probability: 0x4000_0000_0000_0000,
        });
        MutationSettingsTemplate {
            // the patterns of 0.3, 0.0 and 0.2
            mutation_probability: 0x3FD3_3333_3333_3333,
            min_weights_affected_ratio: 0,
            max_weights_affected_ratio: 0x3FC9_9999_9999_999A,
            methods,
        }
    }
}

/// The error one mutation method is rejected with: an upper bound below
/// the lower one, reported per operator kind.
pub open spec fn mutation_method_error(m: MutationMethod) -> BrainsError {
    match m {
        MutationMethod::Invert => BrainsError::NoError,
        MutationMethod::Replace(lo, hi) => if lt_bits(hi, lo) {
            BrainsError::MutationInvalidReplaceMethodMinMax
        } else {
            BrainsError::NoError
        },
        MutationMethod::Scale(lo, hi) => if lt_bits(hi, lo) {
            BrainsError::MutationInvalidScaleMethodMinMax
        } else {
            BrainsError::NoError
        },
        MutationMethod::Shift(lo, hi) => if lt_bits(hi, lo) {
            BrainsError::MutationInvalidShiftMethodMinMax
        } else {
            BrainsError::NoError
        },
    }
}

/// The first method error at or after position `k`, `NoError` if none.
pub open spec fn mutation_methods_error(ms: Seq<MutationMethodProbability>, k: int) -> BrainsError
    decreases ms.len() - k,
{
    if k < 0 || k >= ms.len() {
        BrainsError::NoError
    } else if mutation_method_error(ms[k].method) != BrainsError::NoError {
        mutation_method_error(ms[k].method)
    } else {
        mutation_methods_error(ms, k + 1)
    }
}

/// The relative draw weights of a method list.
pub open spec fn mutation_probs(ms: Seq<MutationMethodProbability>) -> Seq<u64> {
    ms.map_values(|m: MutationMethodProbability| m.relative_probability)
}

/// The error a mutation template is rejected with, in the order the
/// checks run; `NoError` when it passes.
pub open spec fn mutation_template_error(t: MutationSettingsTemplate) -> BrainsError {
    if !valid_ratio_bits(t.mutation_probability) {
        BrainsError::MutationInvalidProbability
    } else if !valid_ratio_bits(t.min_weights_affected_ratio) {
        BrainsError::MutationInvalidMinWeightsAffectedRatio
    } else if !valid_ratio_bits(t.max_weights_affected_ratio) || lt_bits(
        t.max_weights_affected_ratio,
        t.min_weights_affected_ratio,
    ) {
        BrainsError::MutationInvalidMaxWeightsAffectedRatio
    } else if t.methods@.len() == 0 {
        BrainsError::MutationMethodsEmpty
    } else {
        mutation_methods_error(t.methods@, 0)
    }
}

/// The weight count a shape offers, capped so that derived bounds always
/// fit: real networks stay far below the cap.
pub open spec fn total_weights_clamped(v: Seq<LayerModel>) -> u32 {
    if total_weights_spec(v) > 0x7FFF_FFFF {
        0x7FFF_FFFFu32
    } else {
        total_weights_spec(v) as u32
    }
}

/// Mutation settings bound to one network shape: the per-individual gate
/// probability, the derived range of weights touched per operation, and
/// the operator list with its sampler.
pub struct MutationSettings {
    pub(crate) mutation_probability: u64,
    pub(crate) min_weights_affected: usize,
    pub(crate) max_weights_affected: usize,
    pub(crate) methods: Vec<MutationMethod>,
    pub(crate) method_sampler: WeightedSampler,
}

impl MutationSettings {
    /// The per-individual mutation probability, as a bit pattern.
    pub closed spec fn spec_probability(&self) -> u64 {
        self.mutation_probability
    }

    /// The lower bound (inclusive) of weights touched per operation.
    pub closed spec fn spec_min_weights(&self) -> usize {
        self.min_weights_affected
    }

    /// The upper bound (exclusive) of weights touched per operation.
    pub closed spec fn spec_max_weights(&self) -> usize {
        self.max_weights_affected
    }

    /// The operator variants.
    pub closed spec fn spec_methods(&self) -> Seq<MutationMethod> {
        self.methods@
    }

    /// Internal consistency: a non-empty draw range and a sampler over
    /// exactly the method list.
    pub closed spec fn wf(&self) -> bool {
        &&& self.min_weights_affected < self.max_weights_affected
        &&& self.method_sampler.wf()
        &&& self.method_sampler.spec_len() == self.methods@.len()
        &&& self.methods@.len() > 0
    }

    /// Validates the template against the network's shape and builds the
    /// settings: the count range is the truncated ratio window over the
    /// total weight count, and the sampler is built over the methods'
    /// relative probabilities.
    pub fn new(template: &MutationSettingsTemplate, nn: &NeuralNetwork) -> (r: Result<
        MutationSettings,
        BrainsError,
    >)
        requires
            net_wf(nn@),
            total_weights_spec(nn@) <= usize::MAX,
        ensures
            mutation_template_error(*template) != BrainsError::NoError ==> r == Err::<
                MutationSettings,
                BrainsError,
            >(mutation_template_error(*template)),
            mutation_template_error(*template) == BrainsError::NoError && !alias_accepts(
                mutation_probs(template.methods@),
            ) ==> r == Err::<MutationSettings, BrainsError>(
                BrainsError::MutationInvalidMethodProbabilities,
            ),
            mutation_template_error(*template) == BrainsError::NoError && alias_accepts(
                mutation_probs(template.methods@),
            ) ==> (r matches Ok(s) && {
                &&& s.wf()
                &&& s.spec_probability() == template.mutation_probability
                &&& s.spec_methods() == template.methods@.map_values(
                    |m: MutationMethodProbability| m.method,
                )
                &&& s.spec_min_weights() == ratio_scaled(
                    template.min_weights_affected_ratio,
                    total_weights_clamped(nn@),
                )
                &&& s.spec_max_weights() == ratio_scaled(
                    template.max_weights_affected_ratio,
                    total_weights_clamped(nn@),
                ) + 1
            }),
    {
        let e = Self::validate_template(template);
        if !matches!(e, BrainsError::NoError) {
            return Err(e);
        }
        let total = nn.total_weights();
        let t32: u32 = if total > 0x7FFF_FFFFusize {
            0x7FFF_FFFF
        } else {
            total as u32
        };
        let min_weights_affected = scale_count(template.min_weights_affected_ratio, t32);
        let max_base = scale_count(template.max_weights_affected_ratio, t32);
        proof {
            assert(le_bits(
                template.min_weights_affected_ratio,
                template.max_weights_affected_ratio,
            ));
            assert(min_weights_affected <= max_base);
            assert(max_base <= t32 as usize);
        }
        let max_weights_affected: usize = max_base + 1;
        let mut methods: Vec<MutationMethod> = Vec::new();
        let mut probs: Vec<u64> = Vec::new();
        let mut i: usize = 0;
        while i < template.methods.len()
            invariant
                0 <= i <= template.methods@.len(),
                methods@ =~= template.methods@.subrange(0, i as int).map_values(
                    |m: MutationMethodProbability| m.method,
                ),
                probs@ =~= mutation_probs(template.methods@.subrange(0, i as int)),
            decreases template.methods@.len() - i,
        {
            methods.push(template.methods[i].method);
            probs.push(template.methods[i].relative_probability);
            proof {
                assert(template.methods@.subrange(0, i + 1).map_values(
                    |m: MutationMethodProbability| m.method,
                ) =~= template.methods@.subrange(0, i as int).map_values(
                    |m: MutationMethodProbability| m.method,
                ).push(template.methods@[i as int].method));
                assert(mutation_probs(template.methods@.subrange(0, i + 1)) =~= mutation_probs(
                    template.methods@.subrange(0, i as int),
                ).push(template.methods@[i as int].relative_probability));
            }
            i += 1;
        }
        proof {
            assert(template.methods@.subrange(0, template.methods@.len() as int)
                =~= template.methods@);
            assert(probs@ == mutation_probs(template.methods@));
        }
        let method_sampler = match WeightedSampler::new(&probs) {
            Some(s) => s,
            None => {
                return Err(BrainsError::MutationInvalidMethodProbabilities);
            },
        };
        Ok(MutationSettings {
            mutation_probability: template.mutation_probability,
            min_weights_affected,
            max_weights_affected,
            methods,
            method_sampler,
        })
    }

    /// Checks the template alone: probability and ratio bounds in the
    /// unit interval, a non-empty method list, and per-operator ranges
    /// whose upper bound is not below the lower.
    fn validate_template(template: &MutationSettingsTemplate) -> (r: BrainsError)
        ensures
            r == mutation_template_error(*template),
    {
        if !crate::fbits::exec_valid_ratio(template.mutation_probability) {
            return BrainsError::MutationInvalidProbability;
        }
        if !crate::fbits::exec_valid_ratio(template.min_weights_affected_ratio) {
            return BrainsError::MutationInvalidMinWeightsAffectedRatio;
        }
        if !crate::fbits::exec_valid_ratio(template.max_weights_affected_ratio)
            || crate::fbits::exec_lt(
            template.max_weights_affected_ratio,
            template.min_weights_affected_ratio,
        ) {
            return BrainsError::MutationInvalidMaxWeightsAffectedRatio;
        }
        if template.methods.len() == 0 {
            return BrainsError::MutationMethodsEmpty;
        }
        let mut i: usize = 0;
        while i < template.methods.len()
            invariant
                0 <= i <= template.methods@.len(),
                mutation_methods_error(template.methods@, 0) == mutation_methods_error(
                    template.methods@,
                    i as int,
                ),
            decreases template.methods@.len() - i,
        {
            let e = match template.methods[i].method {
                MutationMethod::Invert => BrainsError::NoError,
                MutationMethod::Replace(lo, hi) => if crate::fbits::exec_lt(hi, lo) {
                    BrainsError::MutationInvalidReplaceMethodMinMax
                } else {
                    BrainsError::NoError
                },
                MutationMethod::Scale(lo, hi) => if crate::fbits::exec_lt(hi, lo) {
                    BrainsError::MutationInvalidScaleMethodMinMax
                } else {
                    BrainsError::NoError
                },
                MutationMethod::Shift(lo, hi) => if crate::fbits::exec_lt(hi, lo) {
                    BrainsError::MutationInvalidShiftMethodMinMax
                } else {
                    BrainsError::NoError
                },
            };
            if !matches!(e, BrainsError::NoError) {
                return e;
            }
            i += 1;
        }
        BrainsError::NoError
    }

    /// The per-individual mutation probability, as a bit pattern.
    pub fn mutation_probability(&self) -> (r: u64)
        ensures
            r == self.spec_probability(),
    {
        self.mutation_probability
    }

    /// Draws how many weights this operation touches, from the derived
    /// range.
    pub fn gen_weights_affected(&self, rng: &mut rand::rngs::ThreadRng) -> (r: usize)
        requires
            self.wf(),
        ensures
            self.spec_min_weights() <= r < self.spec_max_weights(),
    {
        rand_range_usize(rng, self.min_weights_affected, self.max_weights_affected)
    }

    /// Draws one operator variant, weighted by the configured relative
    /// probabilities.
    pub fn gen_method(&self, rng: &mut rand::rngs::ThreadRng) -> (r: MutationMethod)
        requires
            self.wf(),
        ensures
            exists|i: int| 0 <= i < self.spec_methods().len() && r == self.spec_methods()[i],
    {
        let i = self.method_sampler.sample(rng);
        let m = self.methods[i];
        proof {
            assert(0 <= i < self.spec_methods().len() && m == self.spec_methods()[i as int]);
        }
        m
    }

    /// The derived inclusive lower bound of weights touched per
    /// operation.
    pub fn min_weights_affected(&self) -> (r: usize)
        ensures
            r == self.spec_min_weights(),
    {
        self.min_weights_affected
    }

    /// The derived exclusive upper bound of weights touched per
    /// operation.
    pub fn max_weights_affected(&self) -> (r: usize)
        ensures
            r == self.spec_max_weights(),
    {
        self.max_weights_affected
    }
}

} // verus!
