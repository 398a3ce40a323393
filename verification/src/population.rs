//! The population handle that the boundary layer drives: the members and
//! the configuration that evolves them.

use vstd::prelude::*;

use crate::config::Config;
use crate::error::BrainsError;
use crate::gen::{is_ranking, selection_implemented, try_evolve};
use crate::nn::{
    lemma_same_shape_sym, lemma_same_shape_trans, net_eval, net_wf, same_shape, NeuralNetwork,
};
use crate::sampler::alias_accepts;

verus! {

/// The reference shape of an attached configuration, empty without one.
pub open spec fn config_net(c: Option<Config>) -> Seq<crate::nn::LayerModel> {
    match c {
        Some(cfg) => cfg.spec_network(),
        None => Seq::empty(),
    }
}

/// A population of networks, optionally paired with the configuration
/// that drives its generations.
pub struct Population {
    pub(crate) members: Vec<NeuralNetwork>,
    pub(crate) config: Option<Config>,
}

impl Population {
    /// The member networks.
    pub closed spec fn spec_members(&self) -> Seq<NeuralNetwork> {
        self.members@
    }

    /// Whether a configuration is attached.
    pub closed spec fn has_config(&self) -> bool {
        self.config is Some
    }

    /// The attached configuration.
    pub closed spec fn spec_config(&self) -> Option<Config> {
        self.config
    }

    /// Internal consistency: at least one member, all members well
    /// formed with one common shape, and any attached configuration
    /// bound to that same shape.
    pub closed spec fn wf(&self) -> bool {
        &&& self.members@.len() > 0
        &&& forall|i: int| 0 <= i < self.members@.len() ==> net_wf(#[trigger] self.members@[i]@)
        &&& forall|i: int|
            0 <= i < self.members@.len() ==> same_shape(
                (#[trigger] self.members@[i])@,
                self.members@[0]@,
            )
        &&& (self.config matches Some(c) ==> c.wf() && same_shape(
            self.members@[0]@,
            c.spec_network(),
        ))
    }

    /// Wraps checked members and an optional matching configuration.
    pub fn new(members: Vec<NeuralNetwork>, config: Option<Config>) -> (r: Population)
        requires
            members@.len() > 0,
            forall|i: int| 0 <= i < members@.len() ==> net_wf(#[trigger] members@[i]@),
            forall|i: int|
                0 <= i < members@.len() ==> same_shape((#[trigger] members@[i])@, members@[0]@),
            config matches Some(c) ==> c.wf() && same_shape(members@[0]@, c.spec_network()),
        ensures
            r.wf(),
            r.spec_members() == members@,
            r.has_config() == (config is Some),
    {
        Population { members, config }
    }

    /// The number of members.
    pub fn member_count(&self) -> (r: usize)
        ensures
            r == self.spec_members().len(),
    {
        self.members.len()
    }

    /// One member by index.
    pub fn member(&self, index: usize) -> (r: &NeuralNetwork)
        requires
            index < self.spec_members().len(),
        ensures
            *r == self.spec_members()[index as int],
    {
        &self.members[index]
    }

    /// The number of inputs every member expects.
    pub fn input_count(&self) -> (r: usize)
        requires
            self.wf(),
        ensures
            r == self.spec_members()[0]@[0].input_count,
    {
        self.members[0].input_count()
    }

    /// The number of outputs every member produces.
    pub fn output_count(&self) -> (r: usize)
        requires
            self.wf(),
        ensures
            r == self.spec_members()[0]@.last().activations.len(),
    {
        self.members[0].output_count()
    }

    /// The selection variant of the attached configuration, if any.
    pub fn selection_method(&self) -> (r: Option<crate::gen::SelectionMethod>)
        ensures
            (match self.spec_config() {
                Some(c) => r == Some(c.spec_selection_method()),
                None => r is None,
            }),
    {
        match &self.config {
            Some(c) => Some(c.selection_method),
            None => None,
        }
    }

    /// Runs one member's forward pass on the given inputs; an index past
    /// the population reports `InvalidMemberIndex`.
    pub fn evaluate_member(&self, index: usize, inputs: &Vec<u64>) -> (r: Result<
        Vec<u64>,
        BrainsError,
    >)
        requires
            self.wf(),
            inputs@.len() == self.spec_members()[0]@[0].input_count,
        ensures
            r is Ok <==> index < self.spec_members().len(),
            index >= self.spec_members().len() ==> r == Err::<Vec<u64>, BrainsError>(
                BrainsError::InvalidMemberIndex,
            ),
            r matches Ok(out) ==> out@ == net_eval(
                self.spec_members()[index as int]@,
                inputs@,
            ),
    {
        if index >= self.members.len() {
            return Err(BrainsError::InvalidMemberIndex);
        }
        proof {
            assert(same_shape(self.members@[index as int]@, self.members@[0]@));
        }
        Ok(self.members[index].evaluate(inputs))
    }

    /// Replaces the members with the next generation evolved under the
    /// attached configuration. A missing configuration reports
    /// `MissingEvolutionConfig`; a fitness array the sampler refuses
    /// (it must pair finite non-negative weights, not all zero, with the
    /// members) reports `InternalError`; both leave the population
    /// untouched.
    pub fn evolve_in_place(
        &mut self,
        fitness: &Vec<u64>,
        rng: &mut rand::rngs::ThreadRng,
    ) -> (r: Result<(), BrainsError>)
        requires
            old(self).wf(),
            fitness@.len() == old(self).spec_members().len(),
            old(self).spec_config() matches Some(c) ==> selection_implemented(
                c.spec_selection_method(),
            ),
        ensures
            final(self).wf(),
            !old(self).has_config() ==> r == Err::<(), BrainsError>(
                BrainsError::MissingEvolutionConfig,
            ) && *final(self) == *old(self),
            old(self).has_config() && !alias_accepts(fitness@) ==> r == Err::<(), BrainsError>(
                BrainsError::InternalError,
            ) && *final(self) == *old(self),
            old(self).has_config() && alias_accepts(fitness@) ==> r == Ok::<(), BrainsError>(())
                && final(self).spec_members().len() == old(self).spec_members().len()
                && final(self).has_config(),
            old(self).has_config() && alias_accepts(fitness@) ==> forall|i: int|
                0 <= i < final(self).spec_members().len() ==> net_wf(
                    #[trigger] final(self).spec_members()[i]@,
                ) && same_shape(final(self).spec_members()[i]@, old(self).spec_members()[0]@),
            old(self).has_config() && alias_accepts(fitness@) ==> (match old(self).spec_config() {
                Some(c) => c.spec_elitism() > 0 ==> exists|rk: Seq<int>|
                    #[trigger] is_ranking(rk, fitness@) && (forall|i: int|
                        0 <= i < (if c.spec_elitism() > old(self).spec_members().len() {
                            old(self).spec_members().len()
                        } else {
                            c.spec_elitism() as nat
                        }) ==> final(self).spec_members()[i]@ == old(self).spec_members()[rk[i]]@),
                None => true,
            }),
    {
        let ghost net = config_net(self.spec_config());
        let taken = self.config.take();
        match taken {
            None => Err(BrainsError::MissingEvolutionConfig),
            Some(mut c) => {
                proof {
                    lemma_same_shape_sym(self.members@[0]@, net);
                    c.crossover.lemma_buffer_fits_shape(net, self.members@[0]@);
                }
                let method = c.selection_method;
                let elitism = c.elitism;
                match try_evolve(
                    rng,
                    &self.members,
                    fitness,
                    method,
                    elitism,
                    &mut c.crossover,
                    &c.mutation,
                ) {
                    Some(next) => {
                        proof {
                            assert forall|i: int|
                                0 <= i < next@.len() implies same_shape(
                                (#[trigger] next@[i])@,
                                net,
                            ) by {
                                lemma_same_shape_trans(next@[i]@, self.members@[0]@, net);
                            }
                        }
                        let ghost old_first = self.members@[0]@;
                        proof {
                            c.crossover.lemma_buffer_fits_shape(old_first, net);
                        }
                        self.members = next;
                        self.config = Some(c);
                        proof {
                            assert forall|i: int|
                                0 <= i < self.members@.len() implies same_shape(
                                (#[trigger] self.members@[i])@,
                                self.members@[0]@,
                            ) by {
                                lemma_same_shape_trans(self.members@[i]@, old_first, net);
                                lemma_same_shape_sym(self.members@[0]@, net);
                                lemma_same_shape_trans(self.members@[i]@, net, self.members@[0]@);
                            }
                            lemma_same_shape_trans(self.members@[0]@, old_first, net);
                        }
                        Ok(())
                    },
                    None => {
                        self.config = Some(c);
                        Err(BrainsError::InternalError)
                    },
                }
            },
        }
    }
}

} // verus!
