use brains::config::{build_population, top_n_indices, Config, ConfigTemplate};
use brains::crossover_settings::{CrossoverSettings, CrossoverSettingsTemplate};
use brains::error::BrainsError;
use brains::gen::{evolve, rank_by_fitness, try_evolve, SelectionMethod};
use brains::mutation_settings::{MutationSettings, MutationSettingsTemplate};
use brains::nn::{Activation, NeuralNetwork};
use brains::population::Population;

fn bits(x: f64) -> u64 {
    x.to_bits()
}

fn marked_member(mark: f64) -> NeuralNetwork {
    let mut n = NeuralNetwork::new(2, vec![vec![Activation::TanH, Activation::TanH]]);
    for idx in 0..6 {
        n.set_weight(0, idx, bits(mark + idx as f64));
    }
    n
}

fn member_weights(n: &NeuralNetwork) -> Vec<u64> {
    n.layers()[0].all_weights().clone()
}

#[test]
fn ranking_sorts_descending_with_stable_ties() {
    let fitness = vec![bits(3.0), bits(1.0), bits(2.0), bits(2.0)];
    assert_eq!(rank_by_fitness(&fitness), vec![0, 2, 3, 1]);
}

#[test]
fn ranking_puts_nan_last() {
    let fitness = vec![bits(f64::NAN), bits(5.0), bits(0.0)];
    assert_eq!(rank_by_fitness(&fitness), vec![1, 2, 0]);
}

#[test]
fn evolve_conserves_population_size() {
    let population: Vec<NeuralNetwork> = (0..7).map(|i| marked_member(i as f64 * 10.0)).collect();
    let fitness: Vec<u64> = (1..=7).map(|i| bits(i as f64)).collect();
    let mut cs = CrossoverSettings::new(&CrossoverSettingsTemplate::default(), &population[0])
        .unwrap();
    let ms = MutationSettings::new(&MutationSettingsTemplate::default(), &population[0]).unwrap();
    let mut rng = rand::thread_rng();
    let next = evolve(
        &mut rng,
        &population,
        &fitness,
        SelectionMethod::FitnessProportionate,
        2,
        &mut cs,
        &ms,
    );
    assert_eq!(next.len(), population.len());
    for m in &next {
        assert!(m.is_well_formed());
        assert!(m.is_structurally_equal(&population[0]));
    }
}

#[test]
fn evolve_carries_the_elite_unchanged() {
    let population: Vec<NeuralNetwork> = (0..6).map(|i| marked_member(i as f64 * 10.0)).collect();
    // best member is index 5, second best index 4
    let fitness: Vec<u64> = (1..=6).map(|i| bits(i as f64)).collect();
    let mut cs = CrossoverSettings::new(&CrossoverSettingsTemplate::default(), &population[0])
        .unwrap();
    let ms = MutationSettings::new(&MutationSettingsTemplate::default(), &population[0]).unwrap();
    let mut rng = rand::thread_rng();
    for _ in 0..20 {
        let next = evolve(
            &mut rng,
            &population,
            &fitness,
            SelectionMethod::FitnessProportionate,
            2,
            &mut cs,
            &ms,
        );
        assert_eq!(member_weights(&next[0]), member_weights(&population[5]));
        assert_eq!(member_weights(&next[1]), member_weights(&population[4]));
    }
}

#[test]
fn evolve_with_oversized_elitism_clones_the_whole_ranking() {
    let population: Vec<NeuralNetwork> = (0..4).map(|i| marked_member(i as f64 * 10.0)).collect();
    let fitness = vec![bits(2.0), bits(1.0), bits(4.0), bits(3.0)];
    let mut cs = CrossoverSettings::new(&CrossoverSettingsTemplate::default(), &population[0])
        .unwrap();
    let ms = MutationSettings::new(&MutationSettingsTemplate::default(), &population[0]).unwrap();
    let mut rng = rand::thread_rng();
    let next = evolve(
        &mut rng,
        &population,
        &fitness,
        SelectionMethod::FitnessProportionate,
        100,
        &mut cs,
        &ms,
    );
    assert_eq!(next.len(), 4);
    for (out, expected) in next.iter().zip([2usize, 3, 0, 1]) {
        assert_eq!(member_weights(out), member_weights(&population[expected]));
    }
}

#[test]
fn try_evolve_refuses_nan_fitness() {
    let population: Vec<NeuralNetwork> = (0..4).map(|i| marked_member(i as f64)).collect();
    let fitness = vec![bits(1.0), bits(f64::NAN), bits(1.0), bits(1.0)];
    let mut cs = CrossoverSettings::new(&CrossoverSettingsTemplate::default(), &population[0])
        .unwrap();
    let ms = MutationSettings::new(&MutationSettingsTemplate::default(), &population[0]).unwrap();
    let mut rng = rand::thread_rng();
    let r = try_evolve(
        &mut rng,
        &population,
        &fitness,
        SelectionMethod::FitnessProportionate,
        1,
        &mut cs,
        &ms,
    );
    assert!(r.is_none());
}

#[test]
fn try_evolve_refuses_a_degenerate_fitness_array() {
    let population: Vec<NeuralNetwork> = (0..4).map(|i| marked_member(i as f64)).collect();
    let fitness = vec![bits(0.0); 4];
    let mut cs = CrossoverSettings::new(&CrossoverSettingsTemplate::default(), &population[0])
        .unwrap();
    let ms = MutationSettings::new(&MutationSettingsTemplate::default(), &population[0]).unwrap();
    let mut rng = rand::thread_rng();
    let r = try_evolve(
        &mut rng,
        &population,
        &fitness,
        SelectionMethod::FitnessProportionate,
        1,
        &mut cs,
        &ms,
    );
    assert!(r.is_none());
}

fn small_config_template() -> ConfigTemplate {
    let mut t = ConfigTemplate::default();
    t.population_size = 8;
    t.elitism = bits(0.25);
    t.network = brains::nn::NeuralNetworkTemplate {
        input_count: 2,
        layers: vec![vec![Activation::TanH, Activation::TanH]],
    };
    t
}

#[test]
fn config_rejects_zero_population() {
    let mut t = small_config_template();
    t.population_size = 0;
    assert_eq!(
        Config::build_from_template(&t).err(),
        Some(BrainsError::PopulationSizeZero)
    );
}

#[test]
fn config_rejects_inverted_weight_range() {
    let mut t = small_config_template();
    t.min_weight = bits(1.0);
    t.max_weight = bits(-1.0);
    assert_eq!(
        Config::build_from_template(&t).err(),
        Some(BrainsError::MinWeightLargerThanMaxWeight)
    );
}

#[test]
fn config_rejects_bad_elitism_ratio() {
    let mut t = small_config_template();
    t.elitism = bits(1.5);
    assert_eq!(
        Config::build_from_template(&t).err(),
        Some(BrainsError::InvalidElitismRatio)
    );
}

#[test]
fn config_derives_the_elitism_count() {
    let c = Config::build_from_template(&ConfigTemplate::default()).unwrap();
    // trunc(0.02 * 500) = 10
    assert_eq!(c.elitism(), 10);
    assert_eq!(c.template().population_size, 500);
    let c2 = Config::build_from_template(&small_config_template()).unwrap();
    // trunc(0.25 * 8) = 2
    assert_eq!(c2.elitism(), 2);
}

#[test]
fn build_population_randomizes_in_range() {
    let c = Config::build_from_template(&small_config_template()).unwrap();
    let mut rng = rand::thread_rng();
    let members = build_population(&c, &mut rng);
    assert_eq!(members.len(), 8);
    for m in &members {
        assert!(m.is_well_formed());
        assert!(m.is_structurally_equal(c.network()));
        for &w in m.layers()[0].all_weights() {
            let v = f64::from_bits(w);
            assert!((-1.0..1.0).contains(&v));
        }
    }
}

#[test]
fn population_evolves_in_place() {
    let c = Config::build_from_template(&small_config_template()).unwrap();
    let mut rng = rand::thread_rng();
    let members = build_population(&c, &mut rng);
    let mut pop = Population::new(members, Some(c));
    let fitness: Vec<u64> = (1..=8).map(|i| bits(i as f64)).collect();
    assert_eq!(pop.evolve_in_place(&fitness, &mut rng), Ok(()));
    assert_eq!(pop.member_count(), 8);
    assert_eq!(pop.input_count(), 2);
    assert_eq!(pop.output_count(), 2);
}

#[test]
fn population_without_config_cannot_evolve() {
    let c = Config::build_from_template(&small_config_template()).unwrap();
    let mut rng = rand::thread_rng();
    let members = build_population(&c, &mut rng);
    let mut pop = Population::new(members, None);
    let fitness: Vec<u64> = (1..=8).map(|i| bits(i as f64)).collect();
    assert_eq!(
        pop.evolve_in_place(&fitness, &mut rng),
        Err(BrainsError::MissingEvolutionConfig)
    );
}

#[test]
fn population_reports_a_refused_fitness_array() {
    let c = Config::build_from_template(&small_config_template()).unwrap();
    let mut rng = rand::thread_rng();
    let members = build_population(&c, &mut rng);
    let mut pop = Population::new(members, Some(c));
    let fitness = vec![bits(0.0); 8];
    assert_eq!(
        pop.evolve_in_place(&fitness, &mut rng),
        Err(BrainsError::InternalError)
    );
}

#[test]
fn population_evaluates_members_by_index() {
    let c = Config::build_from_template(&small_config_template()).unwrap();
    let mut rng = rand::thread_rng();
    let members = build_population(&c, &mut rng);
    let pop = Population::new(members, Some(c));
    let inputs = vec![bits(0.5), bits(-0.5)];
    let out = pop.evaluate_member(0, &inputs).unwrap();
    assert_eq!(out.len(), 2);
    assert_eq!(
        pop.evaluate_member(99, &inputs),
        Err(BrainsError::InvalidMemberIndex)
    );
}

#[test]
fn top_n_indices_follow_the_ranking() {
    let fitness = vec![bits(1.0), bits(9.0), bits(5.0)];
    assert_eq!(
        top_n_indices(&fitness, 0),
        Err(BrainsError::ExportMemberCountZero)
    );
    assert_eq!(top_n_indices(&fitness, 2).unwrap(), vec![1, 2]);
    assert_eq!(top_n_indices(&fitness, 10).unwrap(), vec![1, 2, 0]);
}

#[test]
fn check_population_validates_consistency() {
    let a = marked_member(0.0);
    let b = marked_member(1.0);
    let other = NeuralNetwork::new(3, vec![vec![Activation::TanH, Activation::TanH]]);
    let narrower = NeuralNetwork::new(2, vec![vec![Activation::TanH]]);
    assert_eq!(
        brains::config::check_population(&vec![], None).err(),
        Some(BrainsError::PopulationSizeZero)
    );
    let mixed_inputs = vec![marked_member(0.0), other];
    assert_eq!(
        brains::config::check_population(&mixed_inputs, None).err(),
        Some(BrainsError::InconsistentNetworkInputCounts)
    );
    let mixed_outputs = vec![marked_member(0.0), narrower];
    assert_eq!(
        brains::config::check_population(&mixed_outputs, None).err(),
        Some(BrainsError::InconsistentNetworkOutputCounts)
    );
    let expected = NeuralNetwork::new(4, vec![vec![Activation::TanH]]);
    assert_eq!(
        brains::config::check_population(&vec![marked_member(0.0)], Some(&expected)).err(),
        Some(BrainsError::PopulationConfigMismatch)
    );
    assert!(brains::config::check_population(&vec![a, b], None).is_ok());
}

#[test]
fn specimen_writer_caps_at_its_limit() {
    let mut w: brains::gen::SpecimenWriter<NeuralNetwork> = brains::gen::SpecimenWriter::new(2);
    assert!(w.can_write());
    w.write(marked_member(0.0));
    w.write(marked_member(1.0));
    assert!(!w.can_write());
    w.write(marked_member(2.0));
    let members = w.into_members();
    assert_eq!(members.len(), 2);
    assert_eq!(member_weights(&members[1]), member_weights(&marked_member(1.0)));
}

#[test]
fn default_selection_method_is_fitness_proportionate() {
    assert_eq!(SelectionMethod::default(), SelectionMethod::FitnessProportionate);
}
