//! The validated run configuration and the population it drives.

use vstd::prelude::*;

use crate::arith::{ratio_scaled, scale_count};
use crate::crossover_settings::{
    crossover_probs, crossover_template_error, total_nodes_clamped, widest_row_spec,
    CrossoverMethodProbability, CrossoverSettings, CrossoverSettingsTemplate,
};
use crate::error::BrainsError;
use crate::fbits::{is_finite_bits, le_bits, lt_bits, valid_ratio_bits};
use crate::gen::{is_ranking, mapped, rank_by_fitness, SelectionMethod};
use crate::mutation_settings::{
    mutation_probs, mutation_template_error, total_weights_clamped, MutationMethodProbability,
    MutationSettings, MutationSettingsTemplate,
};
use crate::nn::{
    lemma_same_shape_wf, lemma_template_totals, matches_template, net_wf, same_shape, struct_eq,
    template_error, template_sizes_fit, template_total_nodes, template_total_weights,
    NeuralNetwork, NeuralNetworkTemplate,
};
use crate::sampler::alias_accepts;

verus! {

/// The whole run configuration, before validation. All doubles are bit
/// patterns.
pub struct ConfigTemplate {
    pub population_size: usize,
    pub min_weight: u64,
    pub max_weight: u64,
    pub elitism: u64,
    pub network: NeuralNetworkTemplate,
    pub selection_method: SelectionMethod,
    pub crossover: CrossoverSettingsTemplate,
    pub mutation: MutationSettingsTemplate,
}

impl Default for ConfigTemplate {
    /// Five hundred members with weights drawn from [-1, 1), two percent
    /// elitism, and the component defaults.
    fn default() -> (r: Self)
        ensures
            r.population_size == 500,
            r.min_weight == 0xBFF0_0000_0000_0000u64,
            r.max_weight == 0x3FF0_0000_0000_0000u64,
            r.elitism == 0x3F94_7AE1_47AE_147Bu64,
            r.selection_method == SelectionMethod::FitnessProportionate,
    {
        ConfigTemplate {
            population_size: 500,
            // the patterns of -1.0, 1.0 and 0.02
            min_weight: 0xBFF0_0000_0000_0000,
            max_weight: 0x3FF0_0000_0000_0000,
            elitism: 0x3F94_7AE1_47AE_147B,
            network: Default::default(),
            selection_method: SelectionMethod::FitnessProportionate,
            crossover: Default::default(),
            mutation: Default::default(),
        }
    }
}

/// The population size capped for ratio scaling; real sizes stay far
/// below the cap.
pub open spec fn population_size_clamped(n: usize) -> u32 {
    if n > 0x7FFF_FFFF {
        0x7FFF_FFFFu32
    } else {
        n as u32
    }
}

/// The error a whole configuration is rejected with, in the order the
/// checks run; `NoError` when everything passes.
pub open spec fn config_template_error(t: ConfigTemplate) -> BrainsError {
    if t.population_size == 0 {
        BrainsError::PopulationSizeZero
    } else if lt_bits(t.max_weight, t.min_weight) {
        BrainsError::MinWeightLargerThanMaxWeight
    } else if !valid_ratio_bits(t.elitism) {
        BrainsError::InvalidElitismRatio
    } else if template_error(t.network) != BrainsError::NoError {
        template_error(t.network)
    } else if crossover_template_error(t.crossover) != BrainsError::NoError {
        crossover_template_error(t.crossover)
    } else if !alias_accepts(crossover_probs(t.crossover.methods@)) {
        BrainsError::CrossoverInvalidMethodProbabilities
    } else if mutation_template_error(t.mutation) != BrainsError::NoError {
        mutation_template_error(t.mutation)
    } else if !alias_accepts(mutation_probs(t.mutation.methods@)) {
        BrainsError::MutationInvalidMethodProbabilities
    } else {
        BrainsError::NoError
    }
}

/// A validated configuration: the derived elitism count, the settings
/// bound to the reference network's shape, and the template it all came
/// from.
pub struct Config {
    pub(crate) elitism: usize,
    pub(crate) crossover: CrossoverSettings,
    pub(crate) mutation: MutationSettings,
    pub(crate) selection_method: SelectionMethod,
    pub(crate) network: NeuralNetwork,
    pub(crate) template: ConfigTemplate,
}

impl Config {
    /// The derived number of elite members per generation.
    pub open(crate) spec fn spec_elitism(&self) -> usize {
        self.elitism
    }

    /// The configured selection variant.
    pub open(crate) spec fn spec_selection_method(&self) -> SelectionMethod {
        self.selection_method
    }

    /// The reference network's model.
    pub open(crate) spec fn spec_network(&self) -> Seq<crate::nn::LayerModel> {
        self.network@
    }

    /// The configured population size.
    pub open(crate) spec fn spec_population_size(&self) -> usize {
        self.template.population_size
    }

    /// The configured lower weight bound, as a bit pattern.
    pub open(crate) spec fn spec_min_weight(&self) -> u64 {
        self.template.min_weight
    }

    /// The configured upper weight bound, as a bit pattern.
    pub open(crate) spec fn spec_max_weight(&self) -> u64 {
        self.template.max_weight
    }

    /// Internal consistency: a well-formed reference network, settings
    /// bound to its shape, and a positive population size.
    pub open(crate) spec fn wf(&self) -> bool {
        &&& net_wf(self.network@)
        &&& self.crossover.wf()
        &&& self.crossover.buffer_fits(self.network@)
        &&& self.mutation.wf()
        &&& self.template.population_size > 0
    }

    /// Validates the template and builds the configuration: the elitism
    /// count is the truncated elitism ratio of the population size, the
    /// network comes from its template with zeroed weights, and both
    /// settings are bound to that network's shape.
    pub fn build_from_template(template: &ConfigTemplate) -> (r: Result<Config, BrainsError>)
        requires
            template_sizes_fit(template.network),
            template_total_nodes(template.network) <= usize::MAX,
            template_total_weights(template.network) <= usize::MAX,
        ensures
            config_template_error(*template) != BrainsError::NoError ==> r == Err::<
                Config,
                BrainsError,
            >(config_template_error(*template)),
            config_template_error(*template) == BrainsError::NoError ==> (r matches Ok(c) && {
                &&& c.wf()
                &&& c.spec_elitism() == ratio_scaled(
                    template.elitism,
                    population_size_clamped(template.population_size),
                )
                &&& c.spec_selection_method() == template.selection_method
                &&& matches_template(c.spec_network(), template.network)
                &&& c.spec_population_size() == template.population_size
                &&& c.spec_min_weight() == template.min_weight
                &&& c.spec_max_weight() == template.max_weight
                &&& c.spec_crossover().spec_methods() == template.crossover.methods@.map_values(
                    |m: CrossoverMethodProbability| m.method,
                )
                &&& c.spec_crossover().spec_min_nodes() == ratio_scaled(
                    template.crossover.min_nodes_affected_ratio,
                    total_nodes_clamped(c.spec_network()),
                )
                &&& c.spec_crossover().spec_max_nodes() == ratio_scaled(
                    template.crossover.max_nodes_affected_ratio,
                    total_nodes_clamped(c.spec_network()),
                ) + 1
                &&& c.spec_crossover().spec_buffer().len() == widest_row_spec(c.spec_network())
                &&& c.spec_mutation().spec_probability() == template.mutation.mutation_probability
                &&& c.spec_mutation().spec_methods() == template.mutation.methods@.map_values(
                    |m: MutationMethodProbability| m.method,
                )
                &&& c.spec_mutation().spec_min_weights() == ratio_scaled(
                    template.mutation.min_weights_affected_ratio,
                    total_weights_clamped(c.spec_network()),
                )
                &&& c.spec_mutation().spec_max_weights() == ratio_scaled(
                    template.mutation.max_weights_affected_ratio,
                    total_weights_clamped(c.spec_network()),
                ) + 1
            }),
    {
        if template.population_size == 0 {
            return Err(BrainsError::PopulationSizeZero);
        }
        if crate::fbits::exec_lt(template.max_weight, template.min_weight) {
            return Err(BrainsError::MinWeightLargerThanMaxWeight);
        }
        if !crate::fbits::exec_valid_ratio(template.elitism) {
            return Err(BrainsError::InvalidElitismRatio);
        }
        let psize32: u32 = if template.population_size > 0x7FFF_FFFFusize {
            0x7FFF_FFFF
        } else {
            template.population_size as u32
        };
        let elitism = scale_count(template.elitism, psize32);
        let network = match NeuralNetwork::from_template(&template.network) {
            Ok(n) => n,
            Err(e) => {
                return Err(e);
            },
        };
        proof {
            lemma_template_totals(network@, template.network);
        }
        let crossover = match CrossoverSettings::new(&template.crossover, &network) {
            Ok(c) => c,
            Err(e) => {
                return Err(e);
            },
        };
        let mutation = match MutationSettings::new(&template.mutation, &network) {
            Ok(m) => m,
            Err(e) => {
                return Err(e);
            },
        };
        Ok(Config {
            elitism,
            crossover,
            mutation,
            selection_method: template.selection_method,
            network,
            template: duplicate_template(template),
        })
    }

    /// The derived number of elite members per generation.
    pub fn elitism(&self) -> (r: usize)
        ensures
            r == self.spec_elitism(),
    {
        self.elitism
    }

    /// The configured selection variant.
    pub fn selection_method(&self) -> (r: SelectionMethod)
        ensures
            r == self.spec_selection_method(),
    {
        self.selection_method
    }

    /// The crossover settings bound to the reference network.
    pub fn crossover_settings(&self) -> (r: &CrossoverSettings)
        ensures
            r == &self.spec_crossover(),
    {
        &self.crossover
    }

    /// The mutation settings bound to the reference network.
    pub fn mutation_settings(&self) -> (r: &MutationSettings)
        ensures
            r == &self.spec_mutation(),
    {
        &self.mutation
    }

    /// The crossover settings value.
    pub open(crate) spec fn spec_crossover(&self) -> CrossoverSettings {
        self.crossover
    }

    /// The mutation settings value.
    pub open(crate) spec fn spec_mutation(&self) -> MutationSettings {
        self.mutation
    }

    /// The reference network the settings were bound to.
    pub fn network(&self) -> (r: &NeuralNetwork)
        ensures
            r@ == self.spec_network(),
    {
        &self.network
    }

    /// The template the configuration was built from.
    pub fn template(&self) -> (r: &ConfigTemplate)
        ensures
            r.population_size == self.spec_population_size(),
            r.min_weight == self.spec_min_weight(),
            r.max_weight == self.spec_max_weight(),
    {
        &self.template
    }
}

/// A deep copy of a configuration template.
fn duplicate_template(t: &ConfigTemplate) -> (r: ConfigTemplate)
    ensures
        r.population_size == t.population_size,
        r.min_weight == t.min_weight,
        r.max_weight == t.max_weight,
        r.elitism == t.elitism,
        r.selection_method == t.selection_method,
{
    let mut c_methods: Vec<crate::crossover_settings::CrossoverMethodProbability> = Vec::new();
    let mut i: usize = 0;
    while i < t.crossover.methods.len()
        invariant
            0 <= i <= t.crossover.methods@.len(),
        decreases t.crossover.methods@.len() - i,
    {
        c_methods.push(t.crossover.methods[i]);
        i += 1;
    }
    let mut m_methods: Vec<crate::mutation_settings::MutationMethodProbability> = Vec::new();
    let mut j: usize = 0;
    while j < t.mutation.methods.len()
        invariant
            0 <= j <= t.mutation.methods@.len(),
        decreases t.mutation.methods@.len() - j,
    {
        m_methods.push(t.mutation.methods[j]);
        j += 1;
    }
    ConfigTemplate {
        population_size: t.population_size,
        min_weight: t.min_weight,
        max_weight: t.max_weight,
        elitism: t.elitism,
        network: t.network.duplicate(),
        selection_method: t.selection_method,
        crossover: CrossoverSettingsTemplate {
            min_nodes_affected_ratio: t.crossover.min_nodes_affected_ratio,
            max_nodes_affected_ratio: t.crossover.max_nodes_affected_ratio,
            methods: c_methods,
        },
        mutation: MutationSettingsTemplate {
            mutation_probability: t.mutation.mutation_probability,
            min_weights_affected_ratio: t.mutation.min_weights_affected_ratio,
            max_weights_affected_ratio: t.mutation.max_weights_affected_ratio,
            methods: m_methods,
        },
    }
}

/// Builds the initial population: the configuration's reference network
/// cloned `population_size` times, each clone's weights freshly drawn
/// from [min_weight, max_weight).
pub fn build_population(config: &Config, rng: &mut rand::rngs::ThreadRng) -> (r: Vec<
    NeuralNetwork,
>)
    requires
        config.wf(),
        is_finite_bits(config.spec_min_weight()),
        is_finite_bits(config.spec_max_weight()),
        lt_bits(config.spec_min_weight(), config.spec_max_weight()),
    ensures
        r@.len() == config.spec_population_size(),
        forall|i: int|
            0 <= i < r@.len() ==> net_wf(#[trigger] r@[i]@) && same_shape(
                r@[i]@,
                config.spec_network(),
            ),
        forall|i: int, l: int, w: int|
            0 <= i < r@.len() && 0 <= l < r@[i]@.len() && 0 <= w < r@[i]@[l].weights.len()
                ==> lt_bits(#[trigger] r@[i]@[l].weights[w], config.spec_max_weight()) && le_bits(
                config.spec_min_weight(),
                r@[i]@[l].weights[w],
            ),
{
    let size = self_population_size(config);
    let lo = config.template.min_weight;
    let hi = config.template.max_weight;
    let mut members: Vec<NeuralNetwork> = Vec::new();
    let mut i: usize = 0;
    while i < size
        invariant
            0 <= i <= size,
            size == config.spec_population_size(),
            lo == config.spec_min_weight(),
            hi == config.spec_max_weight(),
            members@.len() == i,
            forall|k: int|
                0 <= k < i ==> net_wf(#[trigger] members@[k]@) && same_shape(
                    members@[k]@,
                    config.spec_network(),
                ),
            forall|k: int, l: int, w: int|
                0 <= k < i && 0 <= l < members@[k]@.len() && 0 <= w
                    < members@[k]@[l].weights.len() ==> le_bits(
                    lo,
                    #[trigger] members@[k]@[l].weights[w],
                ) && lt_bits(members@[k]@[l].weights[w], hi),
        decreases size - i,
    {
        let mut nn = config.network.duplicate();
        nn.randomize_weights(rng, lo, hi);
        proof {
            lemma_same_shape_wf(nn@, config.spec_network());
        }
        members.push(nn);
        i += 1;
    }
    members
}

/// The configured population size.
fn self_population_size(config: &Config) -> (r: usize)
    ensures
        r == config.spec_population_size(),
{
    config.template.population_size
}

/// The error an imported member list is rejected with, in the order the
/// checks run: an empty list, a member whose input count differs from the
/// first member's, a member whose output count differs, or a structural
/// mismatch against the expected reference network.
pub open spec fn members_check_error(
    members: Seq<NeuralNetwork>,
    expected: Option<NeuralNetwork>,
) -> BrainsError {
    if members.len() == 0 {
        BrainsError::PopulationSizeZero
    } else if exists|i: int|
        0 <= i < members.len() && (#[trigger] members[i]@)[0].input_count
            != members[0]@[0].input_count {
        BrainsError::InconsistentNetworkInputCounts
    } else if exists|i: int|
        0 <= i < members.len() && (#[trigger] members[i]@).last().activations.len()
            != members[0]@.last().activations.len() {
        BrainsError::InconsistentNetworkOutputCounts
    } else if (expected matches Some(n) && !struct_eq(n@, members[0]@)) {
        BrainsError::PopulationConfigMismatch
    } else {
        BrainsError::NoError
    }
}

/// Checks an imported member list: non-empty, consistent input and
/// output counts, and structurally equal to the expected reference
/// network where one is given.
pub fn check_population(
    members: &Vec<NeuralNetwork>,
    expected: Option<&NeuralNetwork>,
) -> (r: Result<(), BrainsError>)
    requires
        forall|i: int| 0 <= i < members@.len() ==> net_wf(#[trigger] members@[i]@),
        expected matches Some(n) ==> net_wf(n@),
    ensures
        (match r {
            Ok(()) => members_check_error(
                members@,
                (match expected {
                    Some(n) => Some(*n),
                    None => None,
                }),
            ) == BrainsError::NoError,
            Err(e) => members_check_error(
                members@,
                (match expected {
                    Some(n) => Some(*n),
                    None => None,
                }),
            ) == e && e != BrainsError::NoError,
        }),
{
    if members.len() == 0 {
        return Err(BrainsError::PopulationSizeZero);
    }
    let first_in = members[0].input_count();
    let first_out = members[0].output_count();
    let mut i: usize = 0;
    while i < members.len()
        invariant
            0 <= i <= members@.len(),
            members@.len() > 0,
            first_in == members@[0]@[0].input_count,
            forall|k: int|
                0 <= k < i ==> (#[trigger] members@[k]@)[0].input_count
                    == members@[0]@[0].input_count,
        decreases members@.len() - i,
    {
        if members[i].input_count() != first_in {
            return Err(BrainsError::InconsistentNetworkInputCounts);
        }
        i += 1;
    }
    let mut j: usize = 0;
    while j < members.len()
        invariant
            0 <= j <= members@.len(),
            members@.len() > 0,
            first_out == members@[0]@.last().activations.len(),
            forall|k: int|
                0 <= k < j ==> (#[trigger] members@[k]@).last().activations.len()
                    == members@[0]@.last().activations.len(),
        decreases members@.len() - j,
    {
        if members[j].output_count() != first_out {
            return Err(BrainsError::InconsistentNetworkOutputCounts);
        }
        j += 1;
    }
    match expected {
        Some(n) => {
            if !n.is_structurally_equal(&members[0]) {
                return Err(BrainsError::PopulationConfigMismatch);
            }
        },
        None => {},
    }
    Ok(())
}

/// Ranks the candidates by fitness and returns the indices of the best
/// `n` of them, best first; asking for none at all is refused.
pub fn top_n_indices(fitness: &Vec<u64>, n: usize) -> (r: Result<Vec<usize>, BrainsError>)
    ensures
        r is Ok <==> n > 0,
        n == 0 ==> r == Err::<Vec<usize>, BrainsError>(BrainsError::ExportMemberCountZero),
        r matches Ok(v) ==> {
            &&& v@.len() == (if n > fitness@.len() {
                fitness@.len()
            } else {
                n as nat
            })
            &&& exists|rk: Seq<int>|
                #[trigger] is_ranking(rk, fitness@) && mapped(v@) == rk.take(v@.len() as int)
        },
{
    if n == 0 {
        return Err(BrainsError::ExportMemberCountZero);
    }
    let ranked = rank_by_fitness(fitness);
    let take: usize = if n > ranked.len() {
        ranked.len()
    } else {
        n
    };
    let mut out: Vec<usize> = Vec::new();
    let mut i: usize = 0;
    while i < take
        invariant
            0 <= i <= take,
            take <= ranked@.len(),
            out@ =~= ranked@.subrange(0, i as int),
        decreases take - i,
    {
        out.push(ranked[i]);
        i += 1;
    }
    proof {
        let rk = mapped(ranked@);
        assert(mapped(out@) =~= rk.take(out@.len() as int));
        assert(is_ranking(rk, fitness@) && mapped(out@) == rk.take(out@.len() as int));
    }
    Ok(out)
}

} // verus!
