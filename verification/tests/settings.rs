use brains::crossover_settings::{
    CrossoverMethod, CrossoverMethodProbability, CrossoverSettings, CrossoverSettingsTemplate,
};
use brains::error::BrainsError;
use brains::mutation_settings::{
    MutationMethod, MutationMethodProbability, MutationSettings, MutationSettingsTemplate,
};
use brains::nn::{Activation, NeuralNetwork};

fn bits(x: f64) -> u64 {
    x.to_bits()
}

fn hundred_node_network() -> NeuralNetwork {
    NeuralNetwork::new(1, vec![vec![Activation::Linear; 100]])
}

fn crossover_template(min: f64, max: f64) -> CrossoverSettingsTemplate {
    CrossoverSettingsTemplate {
        min_nodes_affected_ratio: bits(min),
        max_nodes_affected_ratio: bits(max),
        methods: vec![CrossoverMethodProbability {
            method: CrossoverMethod::SwapWholeNode,
            relative_probability: bits(1.0),
        }],
    }
}

#[test]
fn ratio_window_derivation() {
    // total = 100, min_ratio = 0.02, max_ratio = 0.30 gives [2, 31)
    let nn = hundred_node_network();
    let s = CrossoverSettings::new(&crossover_template(0.02, 0.30), &nn).unwrap();
    assert_eq!(s.min_nodes_affected(), 2);
    assert_eq!(s.max_nodes_affected(), 31);
}

#[test]
fn crossover_rejects_bad_min_ratio() {
    let nn = hundred_node_network();
    let e = CrossoverSettings::new(&crossover_template(-0.1, 0.30), &nn).err();
    assert_eq!(e, Some(BrainsError::CrossoverInvalidMinNodeRatio));
    let e2 = CrossoverSettings::new(&crossover_template(1.5, 1.5), &nn).err();
    assert_eq!(e2, Some(BrainsError::CrossoverInvalidMinNodeRatio));
}

#[test]
fn crossover_rejects_bad_max_ratio() {
    let nn = hundred_node_network();
    let e = CrossoverSettings::new(&crossover_template(0.5, 0.2), &nn).err();
    assert_eq!(e, Some(BrainsError::CrossoverInvalidMaxNodeRatio));
}

#[test]
fn crossover_rejects_nan_ratios() {
    let nn = hundred_node_network();
    assert_eq!(
        CrossoverSettings::new(&crossover_template(f64::NAN, 0.3), &nn).err(),
        Some(BrainsError::CrossoverInvalidMinNodeRatio)
    );
    assert_eq!(
        CrossoverSettings::new(&crossover_template(0.1, f64::NAN), &nn).err(),
        Some(BrainsError::CrossoverInvalidMaxNodeRatio)
    );
}

#[test]
fn mutation_rejects_nan_probability_and_ratios() {
    let nn = hundred_node_network();
    assert_eq!(
        MutationSettings::new(&mutation_template(f64::NAN, 0.0, 0.2), &nn).err(),
        Some(BrainsError::MutationInvalidProbability)
    );
    assert_eq!(
        MutationSettings::new(&mutation_template(0.3, f64::NAN, 0.2), &nn).err(),
        Some(BrainsError::MutationInvalidMinWeightsAffectedRatio)
    );
    assert_eq!(
        MutationSettings::new(&mutation_template(0.3, 0.0, f64::NAN), &nn).err(),
        Some(BrainsError::MutationInvalidMaxWeightsAffectedRatio)
    );
}

#[test]
fn crossover_rejects_empty_methods() {
    let nn = hundred_node_network();
    let mut t = crossover_template(0.1, 0.2);
    t.methods.clear();
    assert_eq!(
        CrossoverSettings::new(&t, &nn).err(),
        Some(BrainsError::CrossoverEmptyMethodProbabilities)
    );
}

#[test]
fn crossover_rejects_bad_swap_ratios() {
    let nn = hundred_node_network();
    let mut t = crossover_template(0.1, 0.2);
    t.methods.push(CrossoverMethodProbability {
        method: CrossoverMethod::SwapSomeWeights {
            min_weights_swapped_ratio: bits(0.8),
            max_weights_swapped_ratio: bits(0.2),
        },
        relative_probability: bits(1.0),
    });
    assert_eq!(
        CrossoverSettings::new(&t, &nn).err(),
        Some(BrainsError::CrossoverInvalidSwapWeightsRatios)
    );
}

#[test]
fn crossover_rejects_degenerate_probabilities() {
    let nn = hundred_node_network();
    let mut t = crossover_template(0.1, 0.2);
    t.methods[0].relative_probability = bits(0.0);
    assert_eq!(
        CrossoverSettings::new(&t, &nn).err(),
        Some(BrainsError::CrossoverInvalidMethodProbabilities)
    );
}

fn mutation_template(p: f64, min: f64, max: f64) -> MutationSettingsTemplate {
    MutationSettingsTemplate {
        mutation_probability: bits(p),
        min_weights_affected_ratio: bits(min),
        max_weights_affected_ratio: bits(max),
        methods: vec![MutationMethodProbability {
            method: MutationMethod::Invert,
            relative_probability: bits(1.0),
        }],
    }
}

#[test]
fn mutation_window_derivation() {
    // 100 nodes with one input each: 200 weight slots in total
    let nn = hundred_node_network();
    let s = MutationSettings::new(&mutation_template(0.3, 0.25, 0.5), &nn).unwrap();
    assert_eq!(s.min_weights_affected(), 50);
    assert_eq!(s.max_weights_affected(), 101);
}

#[test]
fn mutation_rejects_bad_probability() {
    let nn = hundred_node_network();
    assert_eq!(
        MutationSettings::new(&mutation_template(1.5, 0.0, 0.2), &nn).err(),
        Some(BrainsError::MutationInvalidProbability)
    );
}

#[test]
fn mutation_rejects_bad_min_ratio() {
    let nn = hundred_node_network();
    assert_eq!(
        MutationSettings::new(&mutation_template(0.3, -0.5, 0.2), &nn).err(),
        Some(BrainsError::MutationInvalidMinWeightsAffectedRatio)
    );
}

#[test]
fn mutation_rejects_bad_max_ratio() {
    let nn = hundred_node_network();
    assert_eq!(
        MutationSettings::new(&mutation_template(0.3, 0.5, 0.2), &nn).err(),
        Some(BrainsError::MutationInvalidMaxWeightsAffectedRatio)
    );
}

#[test]
fn mutation_rejects_empty_methods() {
    let nn = hundred_node_network();
    let mut t = mutation_template(0.3, 0.0, 0.2);
    t.methods.clear();
    assert_eq!(
        MutationSettings::new(&t, &nn).err(),
        Some(BrainsError::MutationMethodsEmpty)
    );
}

#[test]
fn mutation_rejects_inverted_method_ranges() {
    let nn = hundred_node_network();
    for (method, expected) in [
        (
            MutationMethod::Replace(bits(2.0), bits(-2.0)),
            BrainsError::MutationInvalidReplaceMethodMinMax,
        ),
        (
            MutationMethod::Scale(bits(2.0), bits(-2.0)),
            BrainsError::MutationInvalidScaleMethodMinMax,
        ),
        (
            MutationMethod::Shift(bits(2.0), bits(-2.0)),
            BrainsError::MutationInvalidShiftMethodMinMax,
        ),
    ] {
        let mut t = mutation_template(0.3, 0.0, 0.2);
        t.methods.push(MutationMethodProbability { method, relative_probability: bits(1.0) });
        assert_eq!(MutationSettings::new(&t, &nn).err(), Some(expected));
    }
}

#[test]
fn mutation_rejects_degenerate_probabilities() {
    let nn = hundred_node_network();
    let mut t = mutation_template(0.3, 0.0, 0.2);
    t.methods[0].relative_probability = bits(-1.0);
    assert_eq!(
        MutationSettings::new(&t, &nn).err(),
        Some(BrainsError::MutationInvalidMethodProbabilities)
    );
}

#[test]
fn default_templates_validate() {
    let nn = NeuralNetwork::new(19, vec![vec![Activation::TanH; 10], vec![Activation::TanH; 2]]);
    assert!(CrossoverSettings::new(&CrossoverSettingsTemplate::default(), &nn).is_ok());
    assert!(MutationSettings::new(&MutationSettingsTemplate::default(), &nn).is_ok());
}

#[test]
fn gen_nodes_affected_stays_in_range() {
    let nn = hundred_node_network();
    let s = CrossoverSettings::new(&crossover_template(0.02, 0.30), &nn).unwrap();
    let mut rng = rand::thread_rng();
    for _ in 0..1000 {
        let k = s.gen_nodes_affected(&mut rng);
        assert!((2..31).contains(&k));
    }
}
