//! The generational pipeline: elitism ranking, selection, and the evolve
//! loop that produces the next population.

use vstd::prelude::*;

use vstd::relations::{sorted_by, total_ordering};
use vstd::seq_lib::lemma_sorted_unique;

use crate::crossover_settings::CrossoverSettings;
use crate::fbits::rank_key;
use crate::mutation_settings::MutationSettings;
use crate::nn::{net_wf, same_shape, NeuralNetwork};
use crate::ops::{crossover, mutate};
use crate::sampler::{alias_accepts, WeightedSampler};

verus! {

/// A bounded collector of offspring: it accepts writes until it holds
/// `limit` members and silently drops the rest.
pub struct SpecimenWriter<S> {
    limit: usize,
    buffer: Vec<S>,
}

impl<S> SpecimenWriter<S> {
    /// The fixed capacity.
    pub closed spec fn spec_limit(&self) -> usize {
        self.limit
    }

    /// The members written so far.
    pub closed spec fn contents(&self) -> Seq<S> {
        self.buffer@
    }

    /// An empty collector of the given capacity.
    pub fn new(limit: usize) -> (r: SpecimenWriter<S>)
        ensures
            r.spec_limit() == limit,
            r.contents() == Seq::<S>::empty(),
    {
        SpecimenWriter { limit, buffer: Vec::new() }
    }

    /// Appends one member while room remains; a full collector is left
    /// unchanged.
    pub fn write(&mut self, specimen: S)
        ensures
            final(self).spec_limit() == old(self).spec_limit(),
            old(self).contents().len() < old(self).spec_limit() ==> final(self).contents()
                == old(self).contents().push(specimen),
            old(self).contents().len() >= old(self).spec_limit() ==> final(self).contents() == old(
                self,
            ).contents(),
    {
        if self.buffer.len() < self.limit {
            self.buffer.push(specimen);
        }
    }

    /// How many members have been kept so far.
    pub fn written(&self) -> (r: usize)
        ensures
            r == self.contents().len(),
    {
        self.buffer.len()
    }

    /// Whether another write would be kept.
    pub fn can_write(&self) -> (r: bool)
        ensures
            r == (self.contents().len() < self.spec_limit()),
    {
        self.buffer.len() < self.limit
    }

    /// Hands the collected members out.
    pub fn into_members(self) -> (r: Vec<S>)
        ensures
            r@ == self.contents(),
    {
        self.buffer
    }
}

/// How parents are chosen from the current population. Only
/// fitness-proportionate selection is built; the other variants are
/// declared configuration surface and are refused before any work starts.
#[derive(Clone, Copy, Debug, PartialEq, Eq, Structural)]
pub enum SelectionMethod {
    /// Parent choice probability proportional to the fitness value.
    FitnessProportionate,
    /// Equally spaced pointers over the cumulative fitness, drawn once.
    StochasticUniversal,
    /// The strongest of a randomly chosen subset of the given size.
    Tournament(usize),
    /// Only the best fraction breeds; the fraction is a ratio bit
    /// pattern.
    Truncation(u64),
}

impl Default for SelectionMethod {
    fn default() -> (r: Self)
        ensures
            r == SelectionMethod::FitnessProportionate,
    {
        SelectionMethod::FitnessProportionate
    }
}

/// The one selection variant the pipeline implements.
pub open spec fn selection_implemented(m: SelectionMethod) -> bool {
    m == SelectionMethod::FitnessProportionate
}

/// Draws `count` parent indices from the population, each with
/// probability proportional to its fitness.
pub fn selection(
    rng: &mut rand::rngs::ThreadRng,
    method: SelectionMethod,
    fitness_sampler: &WeightedSampler,
    count: usize,
    output: &mut Vec<usize>,
)
    requires
        selection_implemented(method),
        fitness_sampler.wf(),
    ensures
        final(output)@.len() == old(output)@.len() + count,
        forall|i: int|
            0 <= i < old(output)@.len() ==> final(output)@[i] == old(output)@[i],
        forall|i: int|
            old(output)@.len() <= i < final(output)@.len() ==> final(output)@[i]
                < fitness_sampler.spec_len(),
{
    match method {
        SelectionMethod::FitnessProportionate => {
            let mut t: usize = 0;
            while t < count
                invariant
                    0 <= t <= count,
                    output@.len() == old(output)@.len() + t,
                    forall|i: int|
                        0 <= i < old(output)@.len() ==> output@[i] == old(output)@[i],
                    forall|i: int|
                        old(output)@.len() <= i < output@.len() ==> output@[i]
                            < fitness_sampler.spec_len(),
                decreases count - t,
            {
                let idx = fitness_sampler.sample(rng);
                output.push(idx);
                t += 1;
            }
        },
        // unreachable under the precondition: the remaining variants are
        // declared configuration surface without an implementation
        _ => {
            proof {
                assert(false);
            }
        },
    }
}

/// The non-strict ranking order on candidate indices of a fitness array:
/// a higher rank key comes first, and ties are broken by the lower index,
/// so that the order is total and deterministic. NaN fitness gets the
/// lowest key (see [`rank_key`]).
pub open spec fn rank_leq(fitness: Seq<u64>) -> spec_fn(int, int) -> bool {
    |a: int, b: int|
        rank_key(fitness[a]) > rank_key(fitness[b]) || (rank_key(fitness[a]) == rank_key(
            fitness[b],
        ) && a <= b)
}

/// The identity index sequence 0, 1, ..., n-1.
pub open spec fn index_seq(n: int) -> Seq<int> {
    Seq::new(n as nat, |i: int| i)
}

/// The view of an index vector as mathematical integers.
pub open spec fn mapped(s: Seq<usize>) -> Seq<int> {
    s.map_values(|x: usize| x as int)
}

/// `r` ranks the fitness array: it is a permutation of all indices,
/// sorted by descending fitness with ties broken by the lower index.
pub open spec fn is_ranking(r: Seq<int>, fitness: Seq<u64>) -> bool {
    &&& r.to_multiset() == index_seq(fitness.len() as int).to_multiset()
    &&& sorted_by(r, rank_leq(fitness))
}

/// The ranking order is a total ordering, for every fitness array.
pub proof fn lemma_rank_total(fitness: Seq<u64>)
    ensures
        total_ordering(rank_leq(fitness)),
{
    let leq = rank_leq(fitness);
    assert forall|x: int, y: int| #[trigger] leq(x, y) && #[trigger] leq(y, x) implies x == y by {}
    assert forall|x: int, y: int, z: int|
        #[trigger] leq(x, y) && #[trigger] leq(y, z) implies leq(x, z) by {}
    assert forall|x: int, y: int| true implies #[trigger] leq(x, y) || #[trigger] leq(y, x) by {}
}

/// Ranking is deterministic: any two rankings of one fitness array are
/// the same sequence. This pins the elitism order completely, up to the
/// stated tie rule.
pub proof fn lemma_ranking_unique(r1: Seq<int>, r2: Seq<int>, fitness: Seq<u64>)
    requires
        is_ranking(r1, fitness),
        is_ranking(r2, fitness),
    ensures
        r1 == r2,
{
    lemma_rank_total(fitness);
    lemma_sorted_unique(r1, r2, rank_leq(fitness));
    assert(r1 =~= r2);
}

/// Swapping two slots of a sequence keeps its multiset of elements.
proof fn lemma_swap_multiset<A>(s: Seq<A>, i: int, j: int)
    requires
        0 <= i < s.len(),
        0 <= j < s.len(),
    ensures
        s.update(i, s[j]).update(j, s[i]).to_multiset() == s.to_multiset(),
{
    broadcast use vstd::seq_lib::group_to_multiset_ensures;
    broadcast use vstd::multiset::group_multiset_axioms;

    if i == j {
        assert(s.update(i, s[j]).update(j, s[i]) =~= s);
    } else {
        let s1 = s.update(i, s[j]);
        let s2 = s1.update(j, s[i]);
        assert(s1[j] == s[j]);
        assert(s2.to_multiset() =~= s.to_multiset());
    }
}

/// Whether candidate `x` ranks at or before candidate `y`.
fn rank_leq_exec(fitness: &Vec<u64>, x: usize, y: usize) -> (r: bool)
    requires
        x < fitness@.len(),
        y < fitness@.len(),
    ensures
        r == rank_leq(fitness@)(x as int, y as int),
{
    let kx = crate::fbits::exec_rank_key(fitness[x]);
    let ky = crate::fbits::exec_rank_key(fitness[y]);
    kx > ky || (kx == ky && x <= y)
}

/// Ranks the candidates of a fitness array: the result lists every index
/// once, best fitness first, ties broken by the lower index.
pub fn rank_by_fitness(fitness: &Vec<u64>) -> (r: Vec<usize>)
    ensures
        r@.len() == fitness@.len(),
        forall|i: int| 0 <= i < r@.len() ==> #[trigger] r@[i] < fitness@.len(),
        is_ranking(mapped(r@), fitness@),
{
    let n = fitness.len();
    let mut idx: Vec<usize> = Vec::new();
    let mut s: usize = 0;
    while s < n
        invariant
            0 <= s <= n,
            idx@.len() == s,
            forall|k: int| 0 <= k < s ==> idx@[k] == k,
        decreases n - s,
    {
        idx.push(s);
        s += 1;
    }
    proof {
        assert(mapped(idx@) =~= index_seq(n as int));
        assert(mapped(idx@).to_multiset() == index_seq(n as int).to_multiset());
    }
    let leq = Ghost(rank_leq(fitness@));
    let mut i: usize = 0;
    while i < n
        invariant
            0 <= i <= n,
            idx@.len() == n,
            n == fitness@.len(),
            leq@ == rank_leq(fitness@),
            forall|k: int| 0 <= k < n ==> #[trigger] idx@[k] < n,
            mapped(idx@).to_multiset() == index_seq(n as int).to_multiset(),
            forall|a: int, b: int| 0 <= a < b < i ==> leq@(idx@[a] as int, idx@[b] as int),
            forall|a: int, b: int| 0 <= a < i <= b < n ==> leq@(idx@[a] as int, idx@[b] as int),
        decreases n - i,
    {
        let mut m: usize = i;
        let mut k: usize = i + 1;
        while k < n
            invariant
                i <= m < k <= n,
                idx@.len() == n,
                n == fitness@.len(),
                leq@ == rank_leq(fitness@),
                forall|t: int| 0 <= t < n ==> #[trigger] idx@[t] < n,
                forall|t: int| i <= t < k ==> leq@(idx@[m as int] as int, idx@[t] as int),
            decreases n - k,
        {
            if !rank_leq_exec(fitness, idx[m], idx[k]) {
                proof {
                    lemma_rank_total(fitness@);
                }
                m = k;
            }
            k += 1;
        }
        let ghost pre = idx@;
        let vi = idx[i];
        let vm = idx[m];
        idx[i] = vm;
        idx[m] = vi;
        proof {
            assert(idx@ =~= pre.update(i as int, pre[m as int]).update(m as int, pre[i as int]));
            lemma_swap_multiset(mapped(pre), i as int, m as int);
            assert(mapped(idx@) =~= mapped(pre).update(i as int, mapped(pre)[m as int]).update(
                m as int,
                mapped(pre)[i as int],
            ));
            lemma_rank_total(fitness@);
        }
        i += 1;
    }
    proof {
        assert(sorted_by(mapped(idx@), rank_leq(fitness@)));
    }
    idx
}

/// How many elite members a population of size `n` contributes.
pub open spec fn elite_count(elitism: usize, n: usize) -> usize {
    if elitism > n {
        n
    } else {
        elitism
    }
}

/// How many elite clones actually land in a collector holding `len` of
/// `limit` members: the elitism count, capped by the population size and
/// by the remaining room.
pub open spec fn elite_appended(elitism: usize, n: nat, len: nat, limit: usize) -> nat {
    let want: nat = if elitism > n {
        n
    } else {
        elitism as nat
    };
    let room: nat = if len < limit {
        (limit - len) as nat
    } else {
        0
    };
    if want > room {
        room
    } else {
        want
    }
}

/// Ranks the population by fitness and writes clones of the best
/// `elitism` members to the collector, best first, without altering
/// them; the collector keeps what its remaining room allows.
pub fn add_elitism_members(
    output: &mut SpecimenWriter<NeuralNetwork>,
    population: &Vec<NeuralNetwork>,
    fitness: &Vec<u64>,
    elitism: usize,
)
    requires
        population@.len() == fitness@.len(),
    ensures
        final(output).spec_limit() == old(output).spec_limit(),
        forall|i: int|
            0 <= i < old(output).contents().len() ==> final(output).contents()[i] == old(
                output,
            ).contents()[i],
        final(output).contents().len() == old(output).contents().len() + elite_appended(
            elitism,
            population@.len(),
            old(output).contents().len(),
            old(output).spec_limit(),
        ),
        elitism == 0 ==> final(output).contents() == old(output).contents(),
        elitism > 0 ==> exists|rk: Seq<int>|
            #[trigger] is_ranking(rk, fitness@) && (forall|i: int|
                old(output).contents().len() <= i < final(output).contents().len()
                    ==> final(output).contents()[i]@ == population@[rk[i - old(
                    output,
                ).contents().len()]]@),
{
    let n = population.len();
    if elitism == 0 {
        return;
    }
    let ranked = rank_by_fitness(fitness);
    let take: usize = if elitism > n {
        n
    } else {
        elitism
    };
    let ghost base = output.contents().len();
    let ghost room: nat = if base < output.spec_limit() {
        (output.spec_limit() - base) as nat
    } else {
        0
    };
    let mut i: usize = 0;
    while i < take
        invariant
            0 <= i <= take,
            take <= n,
            take == elite_count(elitism, n),
            n == population@.len(),
            ranked@.len() == n,
            forall|k: int| 0 <= k < n ==> #[trigger] ranked@[k] < n,
            is_ranking(mapped(ranked@), fitness@),
            output.spec_limit() == old(output).spec_limit(),
            base == old(output).contents().len(),
            room == (if base < output.spec_limit() {
                (output.spec_limit() - base) as nat
            } else {
                0nat
            }),
            output.contents().len() == base + (if i as nat > room {
                room
            } else {
                i as nat
            }),
            forall|k: int|
                0 <= k < base ==> output.contents()[k] == old(output).contents()[k],
            forall|k: int|
                base <= k < output.contents().len() ==> output.contents()[k]@
                    == population@[ranked@[k - base] as int]@,
        decreases take - i,
    {
        let member = &population[ranked[i]];
        output.write(member.duplicate());
        i += 1;
    }
    proof {
        let rk = mapped(ranked@);
        assert(is_ranking(rk, fitness@) && (forall|i2: int|
            base <= i2 < output.contents().len() ==> output.contents()[i2]@ == population@[rk[i2
                - base]]@));
    }
}

/// A ranking lists as many entries as the fitness array, and every entry
/// is a valid candidate index.
pub proof fn lemma_ranking_bounds(rk: Seq<int>, fitness: Seq<u64>)
    requires
        is_ranking(rk, fitness),
    ensures
        rk.len() == fitness.len(),
        forall|i: int| 0 <= i < rk.len() ==> 0 <= #[trigger] rk[i] < fitness.len(),
{
    broadcast use vstd::seq_lib::group_to_multiset_ensures;

    let ids = index_seq(fitness.len() as int);
    assert(rk.to_multiset().len() == rk.len());
    assert(ids.to_multiset().len() == ids.len());
    assert forall|i: int| 0 <= i < rk.len() implies 0 <= #[trigger] rk[i] < fitness.len() by {
        assert(rk.contains(rk[i]));
        assert(rk.to_multiset().contains(rk[i]));
        assert(ids.to_multiset().contains(rk[i]));
        assert(ids.contains(rk[i]));
        let j = choose|j: int| 0 <= j < ids.len() && ids[j] == rk[i];
        assert(ids[j] == j);
    }
}

/// One generation: rank-based elitism, fitness-proportionate selection
/// feeding crossover until the population size is reached again, and a
/// mutation pass over everything but the elite prefix. The result has
/// exactly the input population's length, every member is well formed
/// with the population's shape, and the first `elitism` members are
/// untouched clones of the fitness-ranked best of the input.
pub fn evolve(
    rng: &mut rand::rngs::ThreadRng,
    population: &Vec<NeuralNetwork>,
    fitness: &Vec<u64>,
    selection_method: SelectionMethod,
    elitism: usize,
    crossover_settings: &mut CrossoverSettings,
    mutation_settings: &MutationSettings,
) -> (r: Vec<NeuralNetwork>)
    requires
        population@.len() == fitness@.len(),
        population@.len() > 0,
        selection_implemented(selection_method),
        alias_accepts(fitness@),
        forall|i: int| 0 <= i < population@.len() ==> net_wf(#[trigger] population@[i]@),
        forall|i: int|
            0 <= i < population@.len() ==> same_shape(#[trigger] population@[i]@, population@[0]@),
        old(crossover_settings).wf(),
        old(crossover_settings).buffer_fits(population@[0]@),
        mutation_settings.wf(),
    ensures
        r@.len() == population@.len(),
        forall|i: int|
            0 <= i < r@.len() ==> net_wf(#[trigger] r@[i]@) && same_shape(r@[i]@, population@[0]@),
        final(crossover_settings).wf(),
        final(crossover_settings).buffer_fits(population@[0]@),
        elitism > 0 ==> exists|rk: Seq<int>|
            #[trigger] is_ranking(rk, fitness@) && (forall|i: int|
                0 <= i < elite_count(elitism, population.len()) ==> r@[i]@ == population@[rk[i]]@),
{
    let n = population.len();
    let mut writer: SpecimenWriter<NeuralNetwork> = SpecimenWriter::new(n);
    add_elitism_members(&mut writer, population, fitness, elitism);
    let e_keep = writer.written();
    let ghost elite_snapshot = writer.contents();
    let ghost mut elite_rank: Seq<int> = Seq::empty();
    proof {
        if elitism > 0 {
            elite_rank = choose|rk: Seq<int>|
                #[trigger] is_ranking(rk, fitness@) && (forall|i: int|
                    0 <= i < elite_snapshot.len() ==> elite_snapshot[i]@ == population@[rk[i]]@);
            assert(is_ranking(elite_rank, fitness@));
            assert(forall|i: int|
                0 <= i < elite_snapshot.len() ==> elite_snapshot[i]@ == population@[#[trigger] elite_rank[i]]@);
            lemma_ranking_bounds(elite_rank, fitness@);
        }
    }
    let fitness_sampler = match WeightedSampler::new(fitness) {
        Some(s) => s,
        None => {
            proof {
                assert(false);
            }
            return Vec::new();
        },
    };
    proof {
        assert forall|i: int|
            0 <= i < writer.contents().len() implies net_wf(#[trigger] writer.contents()[i]@)
            && same_shape(writer.contents()[i]@, population@[0]@) by {
            assert(writer.contents()[i]@ == population@[elite_rank[i]]@);
            assert(net_wf(population@[elite_rank[i]]@));
        }
    }
    let mut parents: Vec<usize> = Vec::new();
    while writer.can_write()
        invariant
            writer.spec_limit() == n,
            n == population@.len(),
            writer.contents().len() <= n,
            e_keep <= writer.contents().len(),
            e_keep == elite_snapshot.len(),
            fitness_sampler.wf(),
            fitness_sampler.spec_len() == n,
            crossover_settings.wf(),
            crossover_settings.buffer_fits(population@[0]@),
            forall|i: int|
                0 <= i < e_keep ==> writer.contents()[i] == elite_snapshot[i],
            forall|i: int|
                0 <= i < writer.contents().len() ==> net_wf(#[trigger] writer.contents()[i]@)
                    && same_shape(writer.contents()[i]@, population@[0]@),
        decreases n - writer.contents().len(),
    {
        parents.clear();
        selection(rng, selection_method, &fitness_sampler, 2, &mut parents);
        let p1 = parents[0];
        let p2 = parents[1];
        proof {
            crate::nn::lemma_same_shape_sym(population@[p2 as int]@, population@[0]@);
            crate::nn::lemma_same_shape_trans(
                population@[p1 as int]@,
                population@[0]@,
                population@[p2 as int]@,
            );
            crossover_settings.lemma_buffer_fits_shape(population@[0]@, population@[p1 as int]@);
        }
        let ghost pre = writer.contents();
        crossover(rng, &population[p1], &population[p2], &mut writer, crossover_settings);
        proof {
            crossover_settings.lemma_buffer_fits_shape(population@[p1 as int]@, population@[0]@);
            assert forall|i: int|
                0 <= i < writer.contents().len() implies net_wf(#[trigger] writer.contents()[i]@)
                && same_shape(writer.contents()[i]@, population@[0]@) by {
                if i < pre.len() {
                    assert(writer.contents()[i] == pre[i]);
                } else {
                    assert(same_shape(writer.contents()[i]@, population@[p1 as int]@));
                    crate::nn::lemma_same_shape_trans(
                        writer.contents()[i]@,
                        population@[p1 as int]@,
                        population@[0]@,
                    );
                }
            }
        }
    }
    let mut members = writer.into_members();
    let mut i: usize = e_keep;
    while i < n
        invariant
            e_keep <= i <= n,
            members@.len() == n,
            n == population@.len(),
            mutation_settings.wf(),
            forall|k: int| 0 <= k < e_keep ==> members@[k] == elite_snapshot[k],
            forall|k: int|
                0 <= k < n ==> net_wf(#[trigger] members@[k]@) && same_shape(
                    members@[k]@,
                    population@[0]@,
                ),
        decreases n - i,
    {
        let ghost before = members@[i as int]@;
        mutate(rng, &mut members[i], mutation_settings);
        proof {
            crate::nn::lemma_same_shape_trans(members@[i as int]@, before, population@[0]@);
        }
        i += 1;
    }
    proof {
        if elitism > 0 {
            assert(e_keep == elite_count(elitism, population.len()));
            assert forall|k: int|
                0 <= k < elite_count(elitism, population.len()) implies members@[k]@
                == population@[#[trigger] elite_rank[k]]@ by {
                assert(members@[k] == elite_snapshot[k]);
                assert(elite_snapshot[k]@ == population@[elite_rank[k]]@);
            }
            assert(is_ranking(elite_rank, fitness@) && (forall|k: int|
                0 <= k < elite_count(elitism, population.len()) ==> members@[k]@
                    == population@[elite_rank[k]]@));
        }
    }
    members
}

/// Tests the fitness array against the sampler's acceptance condition
/// and evolves only where it is accepted; `None` reports a refused
/// fitness array (empty, negative, non-finite or all-zero weights).
pub fn try_evolve(
    rng: &mut rand::rngs::ThreadRng,
    population: &Vec<NeuralNetwork>,
    fitness: &Vec<u64>,
    selection_method: SelectionMethod,
    elitism: usize,
    crossover_settings: &mut CrossoverSettings,
    mutation_settings: &MutationSettings,
) -> (r: Option<Vec<NeuralNetwork>>)
    requires
        population@.len() == fitness@.len(),
        population@.len() > 0,
        selection_implemented(selection_method),
        forall|i: int| 0 <= i < population@.len() ==> net_wf(#[trigger] population@[i]@),
        forall|i: int|
            0 <= i < population@.len() ==> same_shape(#[trigger] population@[i]@, population@[0]@),
        old(crossover_settings).wf(),
        old(crossover_settings).buffer_fits(population@[0]@),
        mutation_settings.wf(),
    ensures
        r is Some <==> alias_accepts(fitness@),
        final(crossover_settings).wf(),
        final(crossover_settings).buffer_fits(population@[0]@),
        r is None ==> *final(crossover_settings) == *old(crossover_settings),
        r matches Some(v) ==> {
            &&& v@.len() == population@.len()
            &&& forall|i: int|
                0 <= i < v@.len() ==> net_wf(#[trigger] v@[i]@) && same_shape(
                    v@[i]@,
                    population@[0]@,
                )
            &&& elitism > 0 ==> exists|rk: Seq<int>|
                #[trigger] is_ranking(rk, fitness@) && (forall|i: int|
                    0 <= i < elite_count(elitism, population.len()) ==> v@[i]@
                        == population@[rk[i]]@)
        },
{
    match WeightedSampler::new(fitness) {
        Some(_) => Some(
            evolve(
                rng,
                population,
                fitness,
                selection_method,
                elitism,
                crossover_settings,
                mutation_settings,
            ),
        ),
        None => None,
    }
}

} // verus!
