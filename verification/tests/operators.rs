use brains::crossover_settings::{
    CrossoverMethod, CrossoverMethodProbability, CrossoverSettings, CrossoverSettingsTemplate,
};
use brains::gen::SpecimenWriter;
use brains::mutation_settings::{
    MutationMethod, MutationMethodProbability, MutationSettings, MutationSettingsTemplate,
};
use brains::nn::{Activation, NeuralNetwork};
use brains::ops::{crossover, mutate, swap_node_rows};

fn bits(x: f64) -> u64 {
    x.to_bits()
}

/// Two inputs, two nodes: rows of three slots each, filled with
/// distinguishable values around `base`.
fn patterned_network(base: f64) -> NeuralNetwork {
    let mut n = NeuralNetwork::new(2, vec![vec![Activation::Linear, Activation::Linear]]);
    for idx in 0..6 {
        n.set_weight(0, idx, bits(base + idx as f64));
    }
    n
}

fn all_weights(n: &NeuralNetwork, layer: usize) -> Vec<u64> {
    n.layers()[layer].all_weights().clone()
}

#[test]
fn swap_whole_node_exchanges_exactly_one_row() {
    let mut a = patterned_network(10.0);
    let mut b = patterned_network(20.0);
    swap_node_rows(&mut a, &mut b, 0, 1);
    // node 0 (slots 0..3) is untouched, node 1 (slots 3..6) is exchanged
    let wa = all_weights(&a, 0);
    let wb = all_weights(&b, 0);
    for idx in 0..3 {
        assert_eq!(wa[idx], bits(10.0 + idx as f64));
        assert_eq!(wb[idx], bits(20.0 + idx as f64));
    }
    for idx in 3..6 {
        assert_eq!(wa[idx], bits(20.0 + idx as f64));
        assert_eq!(wb[idx], bits(10.0 + idx as f64));
    }
}

#[test]
fn crossover_writes_two_offspring_of_the_parents_shape() {
    let a = patterned_network(10.0);
    let b = patterned_network(20.0);
    let t = CrossoverSettingsTemplate::default();
    let mut settings = CrossoverSettings::new(&t, &a).unwrap();
    let mut writer: SpecimenWriter<NeuralNetwork> = SpecimenWriter::new(4);
    let mut rng = rand::thread_rng();
    crossover(&mut rng, &a, &b, &mut writer, &mut settings);
    let members = writer.into_members();
    assert_eq!(members.len(), 2);
    for m in &members {
        assert!(m.is_well_formed());
        assert!(m.is_structurally_equal(&a));
        assert_eq!(m.layer_count(), 1);
    }
    // whatever was swapped, each slot still holds one value from each
    // parent, and the two offspring complement each other
    let x = all_weights(&members[0], 0);
    let y = all_weights(&members[1], 0);
    for idx in 0..6 {
        let pa = bits(10.0 + idx as f64);
        let pb = bits(20.0 + idx as f64);
        assert!(
            (x[idx] == pa && y[idx] == pb) || (x[idx] == pb && y[idx] == pa),
            "slot {} lost a parent value",
            idx
        );
    }
}

#[test]
fn crossover_respects_the_collector_capacity() {
    let a = patterned_network(1.0);
    let b = patterned_network(2.0);
    let t = CrossoverSettingsTemplate::default();
    let mut settings = CrossoverSettings::new(&t, &a).unwrap();
    let mut writer: SpecimenWriter<NeuralNetwork> = SpecimenWriter::new(1);
    let mut rng = rand::thread_rng();
    crossover(&mut rng, &a, &b, &mut writer, &mut settings);
    assert_eq!(writer.into_members().len(), 1);
}

/// Settings that always touch at least one weight and always shift it
/// upward, so that a passed gate must leave a visible change.
fn shifting_settings(nn: &NeuralNetwork, probability: f64) -> MutationSettings {
    let t = MutationSettingsTemplate {
        mutation_probability: bits(probability),
        min_weights_affected_ratio: bits(0.5),
        max_weights_affected_ratio: bits(1.0),
        methods: vec![MutationMethodProbability {
            method: MutationMethod::Shift(bits(1.0), bits(2.0)),
            relative_probability: bits(1.0),
        }],
    };
    MutationSettings::new(&t, nn).unwrap()
}

#[test]
fn mutation_gate_zero_never_alters() {
    let mut n = patterned_network(5.0);
    let settings = shifting_settings(&n, 0.0);
    let before = all_weights(&n, 0);
    let mut rng = rand::thread_rng();
    for _ in 0..10_000 {
        mutate(&mut rng, &mut n, &settings);
        assert_eq!(all_weights(&n, 0), before);
    }
}

#[test]
fn mutation_gate_one_always_alters() {
    let mut rng = rand::thread_rng();
    for _ in 0..1_000 {
        let mut n = patterned_network(5.0);
        let settings = shifting_settings(&n, 1.0);
        let before = all_weights(&n, 0);
        mutate(&mut rng, &mut n, &settings);
        assert_ne!(all_weights(&n, 0), before);
    }
}

#[test]
fn mutation_invert_flips_the_sign() {
    // one weight slot range: a network of one node with one input, with
    // min ratio 0.5 of 2 slots giving at least one touched weight
    let mut n = NeuralNetwork::new(1, vec![vec![Activation::Linear]]);
    n.set_weight(0, 0, bits(3.0));
    n.set_weight(0, 1, bits(-4.0));
    let t = MutationSettingsTemplate {
        mutation_probability: bits(1.0),
        min_weights_affected_ratio: bits(0.5),
        max_weights_affected_ratio: bits(0.5),
        methods: vec![MutationMethodProbability {
            method: MutationMethod::Invert,
            relative_probability: bits(1.0),
        }],
    };
    let settings = MutationSettings::new(&t, &n).unwrap();
    let mut rng = rand::thread_rng();
    mutate(&mut rng, &mut n, &settings);
    let w = all_weights(&n, 0);
    // exactly one of the two slots was negated
    let flipped0 = w[0] == bits(-3.0) && w[1] == bits(-4.0);
    let flipped1 = w[0] == bits(3.0) && w[1] == bits(4.0);
    assert!(flipped0 || flipped1);
}

#[test]
fn mutation_keeps_the_shape() {
    let mut n = patterned_network(0.25);
    let settings = shifting_settings(&n, 1.0);
    let mut rng = rand::thread_rng();
    for _ in 0..100 {
        mutate(&mut rng, &mut n, &settings);
    }
    assert!(n.is_well_formed());
    assert_eq!(n.layers()[0].all_weights().len(), 6);
}
