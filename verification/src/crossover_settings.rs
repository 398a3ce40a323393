//! Crossover configuration: ratio templates validated against a concrete
//! network shape and turned into bounded integer ranges plus a weighted
//! sampler over the operator variants.

use vstd::prelude::*;

use crate::arith::{ratio_scaled, scale_count};
use crate::error::BrainsError;
use crate::fbits::{le_bits, lt_bits, valid_ratio_bits};
use crate::nn::{total_nodes_spec, LayerModel, NeuralNetwork, net_wf};
use crate::rng::rand_range_usize;
use crate::sampler::{alias_accepts, WeightedSampler};

verus! {

/// One way of combining two parents at a chosen node.
#[derive(Clone, Copy, Debug, PartialEq, Eq, Structural)]
pub enum CrossoverMethod {
    /// Exchange the node's whole weight row.
    SwapWholeNode,
    /// Exchange a drawn fraction of the node's weight slots; the bounds
    /// are ratio bit patterns.
    SwapSomeWeights { min_weights_swapped_ratio: u64, max_weights_swapped_ratio: u64 },
}

/// A crossover method together with its relative draw weight, as a bit
/// pattern.
#[derive(Clone, Copy, Debug, PartialEq, Eq, Structural)]
pub struct CrossoverMethodProbability {
    pub method: CrossoverMethod,
    pub relative_probability: u64,
}

/// The ratio-based crossover template, before validation.
pub struct CrossoverSettingsTemplate {
    pub min_nodes_affected_ratio: u64,
    pub max_nodes_affected_ratio: u64,
    pub methods: Vec<CrossoverMethodProbability>,
}

impl Default for CrossoverSettingsTemplate {
    /// Touch between two and thirty percent of the nodes; swapping the
    /// whole node is three times as likely as swapping a quarter to three
    /// quarters of its weights.
    fn default() -> (r: Self)
        ensures
            r.min_nodes_affected_ratio == 0x3F94_7AE1_47AE_147Bu64,
            r.max_nodes_affected_ratio == 0x3FD3_3333_3333_3333u64,
            r.methods@.len() == 2,
            r.methods@[0] == (CrossoverMethodProbability {
                method: CrossoverMethod::SwapWholeNode,
                relative_probability: 0x4008_0000_0000_0000u64,
            }),
            r.methods@[1] == (CrossoverMethodProbability {
                method: CrossoverMethod::SwapSomeWeights {
                    min_weights_swapped_ratio: 0x3FD0_0000_0000_0000u64,
                    max_weights_swapped_ratio: 0x3FE8_0000_0000_0000u64,
                },
                relative_probability: 0x3FF0_0000_0000_0000u64,
            }),
    {
        let mut methods: Vec<CrossoverMethodProbability> = Vec::new();
        methods.push(CrossoverMethodProbability {
            method: CrossoverMethod::SwapWholeNode,
            // the pattern of 3.0
            relative_probability: 0x4008_0000_0000_0000,
        });
        methods.push(CrossoverMethodProbability {
            method: CrossoverMethod::SwapSomeWeights {
                // the patterns of 0.25 and 0.75
                min_weights_swapped_ratio: 0x3FD0_0000_0000_0000,
                max_weights_swapped_ratio: 0x3FE8_0000_0000_0000,
            },
            // the pattern of 1.0
            relative_probability: 0x3FF0_0000_0000_0000,
        });
        CrossoverSettingsTemplate {
            // the patterns of 0.02 and 0.3
            min_nodes_affected_ratio: 0x3F94_7AE1_47AE_147B,
            max_nodes_affected_ratio: 0x3FD3_3333_3333_3333,
            methods,
        }
    }
}

/// A swap-some-weights method is acceptable when both bounds encode
/// values in the unit interval and the upper bound is not below the
/// lower.
pub open spec fn crossover_method_accepted(m: CrossoverMethod) -> bool {
    match m {
        CrossoverMethod::SwapWholeNode => true,
        CrossoverMethod::SwapSomeWeights { min_weights_swapped_ratio: lo, max_weights_swapped_ratio: hi } => {
            &&& valid_ratio_bits(lo)
            &&& valid_ratio_bits(hi)
            &&& le_bits(lo, hi)
        },
    }
}

/// The relative draw weights of a method list.
pub open spec fn crossover_probs(ms: Seq<CrossoverMethodProbability>) -> Seq<u64> {
    ms.map_values(|m: CrossoverMethodProbability| m.relative_probability)
}

/// The error a crossover template is rejected with, in the order the
/// checks run; `NoError` when it passes.
pub open spec fn crossover_template_error(t: CrossoverSettingsTemplate) -> BrainsError {
    if !valid_ratio_bits(t.min_nodes_affected_ratio) {
        BrainsError::CrossoverInvalidMinNodeRatio
    } else if !valid_ratio_bits(t.max_nodes_affected_ratio) || lt_bits(
        t.max_nodes_affected_ratio,
        t.min_nodes_affected_ratio,
    ) {
        BrainsError::CrossoverInvalidMaxNodeRatio
    } else if t.methods@.len() == 0 {
        BrainsError::CrossoverEmptyMethodProbabilities
    } else if exists|i: int|
        0 <= i < t.methods@.len() && !crossover_method_accepted((#[trigger] t.methods@[i]).method) {
        BrainsError::CrossoverInvalidSwapWeightsRatios
    } else {
        BrainsError::NoError
    }
}

/// The node count a shape offers, capped so that derived bounds always
/// fit: real networks stay far below the cap.
pub open spec fn total_nodes_clamped(v: Seq<LayerModel>) -> u32 {
    if total_nodes_spec(v) > 0x7FFF_FFFF {
        0x7FFF_FFFFu32
    } else {
        total_nodes_spec(v) as u32
    }
}

/// Crossover settings bound to one network shape: the derived range of
/// nodes touched per operation, the operator list with its sampler, and a
/// reusable index buffer sized to the widest weight row.
pub struct CrossoverSettings {
    pub(crate) min_nodes_affected: usize,
    pub(crate) max_nodes_affected: usize,
    pub(crate) node_index_buffer: Vec<usize>,
    pub(crate) methods: Vec<CrossoverMethod>,
    pub(crate) method_sampler: WeightedSampler,
}

impl CrossoverSettings {
    /// The lower bound (inclusive) of nodes touched per operation.
    pub closed spec fn spec_min_nodes(&self) -> usize {
        self.min_nodes_affected
    }

    /// The upper bound (exclusive) of nodes touched per operation.
    pub closed spec fn spec_max_nodes(&self) -> usize {
        self.max_nodes_affected
    }

    /// The operator variants.
    pub closed spec fn spec_methods(&self) -> Seq<CrossoverMethod> {
        self.methods@
    }

    /// Internal consistency: a non-empty draw range, a sampler over
    /// exactly the method list, and only acceptable methods.
    pub closed spec fn wf(&self) -> bool {
        &&& self.min_nodes_affected < self.max_nodes_affected
        &&& self.method_sampler.wf()
        &&& self.method_sampler.spec_len() == self.methods@.len()
        &&& self.methods@.len() > 0
        &&& forall|i: int|
            0 <= i < self.methods@.len() ==> crossover_method_accepted(#[trigger] self.methods@[i])
    }

    /// The contents of the scratch index buffer.
    pub closed spec fn spec_buffer(&self) -> Seq<usize> {
        self.node_index_buffer@
    }

    /// The scratch buffer covers every weight row of the shape.
    pub closed spec fn buffer_fits(&self, shape: Seq<LayerModel>) -> bool {
        forall|l: int|
            0 <= l < shape.len() ==> (#[trigger] shape[l]).input_count + 1
                <= self.node_index_buffer@.len()
    }

    /// The buffer covers every shape that agrees with a covered one.
    pub proof fn lemma_buffer_fits_shape(&self, a: Seq<LayerModel>, b: Seq<LayerModel>)
        requires
            self.buffer_fits(a),
            crate::nn::same_shape(b, a),
        ensures
            self.buffer_fits(b),
    {
    }

    /// A row of a covered shape fits in the scratch buffer.
    pub proof fn lemma_buffer_fits(&self, shape: Seq<LayerModel>, l: int)
        requires
            self.buffer_fits(shape),
            0 <= l < shape.len(),
        ensures
            shape[l].input_count + 1 <= self.spec_buffer().len(),
    {
    }

    /// Fills the first `count` scratch slots with pairwise distinct
    /// indices below `n`; everything else about the settings is kept.
    pub fn fill_distinct(
        &mut self,
        rng: &mut rand::rngs::ThreadRng,
        n: usize,
        count: usize,
    )
        requires
            old(self).wf(),
            count <= n,
            count <= old(self).spec_buffer().len(),
        ensures
            final(self).wf(),
            final(self).spec_min_nodes() == old(self).spec_min_nodes(),
            final(self).spec_max_nodes() == old(self).spec_max_nodes(),
            final(self).spec_methods() == old(self).spec_methods(),
            final(self).spec_buffer().len() == old(self).spec_buffer().len(),
            forall|shape: Seq<LayerModel>|
                old(self).buffer_fits(shape) ==> #[trigger] final(self).buffer_fits(shape),
            forall|i: int| 0 <= i < count ==> #[trigger] final(self).spec_buffer()[i] < n,
            forall|i: int, j: int|
                0 <= i < j < count ==> final(self).spec_buffer()[i] != final(self).spec_buffer()[j],
    {
        crate::rng::choose_distinct(rng, n, count, &mut self.node_index_buffer);
    }

    /// One scratch slot.
    pub fn buffer_at(&self, j: usize) -> (r: usize)
        requires
            j < self.spec_buffer().len(),
        ensures
            r == self.spec_buffer()[j as int],
    {
        self.node_index_buffer[j]
    }

    /// Validates the template against the network's shape and builds the
    /// settings: the node range is the truncated ratio window over the
    /// total node count, and the sampler is built over the methods'
    /// relative probabilities.
    pub fn new(template: &CrossoverSettingsTemplate, nn: &NeuralNetwork) -> (r: Result<
        CrossoverSettings,
        BrainsError,
    >)
        requires
            net_wf(nn@),
            total_nodes_spec(nn@) <= usize::MAX,
        ensures
            crossover_template_error(*template) != BrainsError::NoError ==> r == Err::<
                CrossoverSettings,
                BrainsError,
            >(crossover_template_error(*template)),
            crossover_template_error(*template) == BrainsError::NoError && !alias_accepts(
                crossover_probs(template.methods@),
            ) ==> r == Err::<CrossoverSettings, BrainsError>(
                BrainsError::CrossoverInvalidMethodProbabilities,
            ),
            crossover_template_error(*template) == BrainsError::NoError && alias_accepts(
                crossover_probs(template.methods@),
            ) ==> (r matches Ok(s) && {
                &&& s.wf()
                &&& s.buffer_fits(nn@)
                &&& s.spec_methods() == template.methods@.map_values(
                    |m: CrossoverMethodProbability| m.method,
                )
                &&& s.spec_min_nodes() == ratio_scaled(
                    template.min_nodes_affected_ratio,
                    total_nodes_clamped(nn@),
                )
                &&& s.spec_max_nodes() == ratio_scaled(
                    template.max_nodes_affected_ratio,
                    total_nodes_clamped(nn@),
                ) + 1
                &&& s.spec_buffer().len() == widest_row_spec(nn@)
            }),
    {
        let e = Self::validate_template(template);
        if !matches!(e, BrainsError::NoError) {
            return Err(e);
        }
        let total = nn.total_nodes();
        let t32: u32 = if total > 0x7FFF_FFFFusize {
            0x7FFF_FFFF
        } else {
            total as u32
        };
        let min_nodes_affected = scale_count(template.min_nodes_affected_ratio, t32);
        let max_base = scale_count(template.max_nodes_affected_ratio, t32);
        proof {
            assert(le_bits(template.min_nodes_affected_ratio, template.max_nodes_affected_ratio));
            assert(min_nodes_affected <= max_base);
            assert(max_base <= t32 as usize);
        }
        let max_nodes_affected: usize = max_base + 1;
        let mut methods: Vec<CrossoverMethod> = Vec::new();
        let mut probs: Vec<u64> = Vec::new();
        let mut i: usize = 0;
        while i < template.methods.len()
            invariant
                0 <= i <= template.methods@.len(),
                methods@ =~= template.methods@.subrange(0, i as int).map_values(
                    |m: CrossoverMethodProbability| m.method,
                ),
                probs@ =~= crossover_probs(template.methods@.subrange(0, i as int)),
            decreases template.methods@.len() - i,
        {
            methods.push(template.methods[i].method);
            probs.push(template.methods[i].relative_probability);
            proof {
                assert(template.methods@.subrange(0, i + 1).map_values(
                    |m: CrossoverMethodProbability| m.method,
                ) =~= template.methods@.subrange(0, i as int).map_values(
                    |m: CrossoverMethodProbability| m.method,
                ).push(template.methods@[i as int].method));
                assert(crossover_probs(template.methods@.subrange(0, i + 1)) =~= crossover_probs(
                    template.methods@.subrange(0, i as int),
                ).push(template.methods@[i as int].relative_probability));
            }
            i += 1;
        }
        proof {
            assert(template.methods@.subrange(0, template.methods@.len() as int)
                =~= template.methods@);
            assert(probs@ == crossover_probs(template.methods@));
        }
        let method_sampler = match WeightedSampler::new(&probs) {
            Some(s) => s,
            None => {
                return Err(BrainsError::CrossoverInvalidMethodProbabilities);
            },
        };
        let max_row = widest_row(nn);
        let mut node_index_buffer: Vec<usize> = Vec::new();
        let mut k: usize = 0;
        while k < max_row
            invariant
                0 <= k <= max_row,
                node_index_buffer@.len() == k,
            decreases max_row - k,
        {
            node_index_buffer.push(k);
            k += 1;
        }
        Ok(CrossoverSettings {
            min_nodes_affected,
            max_nodes_affected,
            node_index_buffer,
            methods,
            method_sampler,
        })
    }

    /// Checks the template alone: ratio bounds in the unit interval, a
    /// non-empty method list, and acceptable per-method sub-ranges.
    fn validate_template(template: &CrossoverSettingsTemplate) -> (r: BrainsError)
        ensures
            r == crossover_template_error(*template),
    {
        if !crate::fbits::exec_valid_ratio(template.min_nodes_affected_ratio) {
            return BrainsError::CrossoverInvalidMinNodeRatio;
        }
        if !crate::fbits::exec_valid_ratio(template.max_nodes_affected_ratio)
            || crate::fbits::exec_lt(
            template.max_nodes_affected_ratio,
            template.min_nodes_affected_ratio,
        ) {
            return BrainsError::CrossoverInvalidMaxNodeRatio;
        }
        if template.methods.len() == 0 {
            return BrainsError::CrossoverEmptyMethodProbabilities;
        }
        let mut i: usize = 0;
        while i < template.methods.len()
            invariant
                0 <= i <= template.methods@.len(),
                forall|j: int|
                    0 <= j < i ==> crossover_method_accepted(
                        (#[trigger] template.methods@[j]).method,
                    ),
            decreases template.methods@.len() - i,
        {
            match template.methods[i].method {
                CrossoverMethod::SwapWholeNode => {},
                CrossoverMethod::SwapSomeWeights {
                    min_weights_swapped_ratio: lo,
                    max_weights_swapped_ratio: hi,
                } => {
                    if !crate::fbits::exec_valid_ratio(lo) || !crate::fbits::exec_valid_ratio(hi)
                        || crate::fbits::exec_lt(hi, lo) {
                        return BrainsError::CrossoverInvalidSwapWeightsRatios;
                    }
                },
            }
            i += 1;
        }
        BrainsError::NoError
    }

    /// Draws how many nodes this operation touches, from the derived
    /// range.
    pub fn gen_nodes_affected(&self, rng: &mut rand::rngs::ThreadRng) -> (r: usize)
        requires
            self.wf(),
        ensures
            self.spec_min_nodes() <= r < self.spec_max_nodes(),
    {
        rand_range_usize(rng, self.min_nodes_affected, self.max_nodes_affected)
    }

    /// Draws one operator variant, weighted by the configured relative
    /// probabilities.
    pub fn gen_method(&self, rng: &mut rand::rngs::ThreadRng) -> (r: CrossoverMethod)
        requires
            self.wf(),
        ensures
            exists|i: int| 0 <= i < self.spec_methods().len() && r == self.spec_methods()[i],
            crossover_method_accepted(r),
    {
        let i = self.method_sampler.sample(rng);
        let m = self.methods[i];
        proof {
            assert(0 <= i < self.spec_methods().len() && m == self.spec_methods()[i as int]);
        }
        m
    }

    /// The derived inclusive lower bound of nodes touched per operation.
    pub fn min_nodes_affected(&self) -> (r: usize)
        ensures
            r == self.spec_min_nodes(),
    {
        self.min_nodes_affected
    }

    /// The derived exclusive upper bound of nodes touched per operation.
    pub fn max_nodes_affected(&self) -> (r: usize)
        ensures
            r == self.spec_max_nodes(),
    {
        self.max_nodes_affected
    }
}

/// The widest weight row among the first `k` layers: the largest fan-in
/// plus one.
pub open spec fn widest_upto(v: Seq<LayerModel>, k: int) -> nat
    decreases k,
{
    if k <= 0 {
        0
    } else if v[k - 1].input_count + 1 > widest_upto(v, k - 1) {
        (v[k - 1].input_count + 1) as nat
    } else {
        widest_upto(v, k - 1)
    }
}

/// The widest weight row of a whole network.
pub open spec fn widest_row_spec(v: Seq<LayerModel>) -> nat {
    widest_upto(v, v.len() as int)
}

/// The widest weight row of the network: the largest fan-in plus one.
fn widest_row(nn: &NeuralNetwork) -> (r: usize)
    requires
        net_wf(nn@),
    ensures
        r == widest_row_spec(nn@),
        forall|l: int| 0 <= l < nn@.len() ==> (#[trigger] nn@[l]).input_count + 1 <= r,
{
    let layers = nn.layers();
    let mut best: usize = 0;
    let mut i: usize = 0;
    while i < layers.len()
        invariant
            0 <= i <= nn@.len(),
            layers@.map_values(|l: crate::nn::Layer| l@) == nn@,
            best == widest_upto(nn@, i as int),
            forall|l: int| 0 <= l < i ==> (#[trigger] nn@[l]).input_count + 1 <= best,
        decreases nn@.len() - i,
    {
        proof {
            assert(layers@[i as int]@ == nn@[i as int]);
        }
        let row = layers[i].row_len();
        if row > best {
            best = row;
        }
        i += 1;
    }
    best
}

} // verus!
