use brains::nn::{Activation, NeuralNetwork, NeuralNetworkTemplate};

fn bits(x: f64) -> u64 {
    x.to_bits()
}

fn template(input_count: usize, layers: Vec<Vec<Activation>>) -> NeuralNetworkTemplate {
    NeuralNetworkTemplate { input_count, layers }
}

#[test]
fn build_rejects_zero_input_count() {
    let t = template(0, vec![vec![Activation::TanH]]);
    assert_eq!(
        NeuralNetwork::from_template(&t).err(),
        Some(brains::error::BrainsError::NeuralNetworkConfigInputCountNull)
    );
}

#[test]
fn build_rejects_missing_layers() {
    let t = template(3, vec![]);
    assert_eq!(
        NeuralNetwork::from_template(&t).err(),
        Some(brains::error::BrainsError::NeuralNetworkConfigNoLayers)
    );
}

#[test]
fn build_rejects_empty_layer() {
    let t = template(3, vec![vec![Activation::TanH], vec![]]);
    assert_eq!(
        NeuralNetwork::from_template(&t).err(),
        Some(brains::error::BrainsError::NeuralNetworkConfigEmptyLayer)
    );
}

#[test]
fn built_network_has_template_shape() {
    let t = template(3, vec![vec![Activation::TanH, Activation::TanH], vec![Activation::Linear]]);
    let n = NeuralNetwork::from_template(&t).unwrap();
    assert!(n.is_well_formed());
    assert_eq!(n.input_count(), 3);
    assert_eq!(n.output_count(), 1);
    assert_eq!(n.total_nodes(), 3);
    // layer 0: (3 + 1) * 2 slots, layer 1: (2 + 1) * 1 slots
    assert_eq!(n.total_weights(), 11);
    let layers = n.layers();
    assert_eq!(layers.len(), 2);
    assert_eq!(layers[0].all_weights().len(), 8);
    assert_eq!(layers[1].all_weights().len(), 3);
    assert!(layers[0].all_weights().iter().all(|&w| w == 0));
}

#[test]
fn evaluate_single_tanh_node() {
    // input_count = 2, one TanH node, weights [bias = 0, w1 = 1, w2 = 1]
    let mut n = NeuralNetwork::new(2, vec![vec![Activation::TanH]]);
    n.set_weight(0, 0, bits(0.0));
    n.set_weight(0, 1, bits(1.0));
    n.set_weight(0, 2, bits(1.0));
    let out = n.evaluate(&vec![bits(1.0), bits(1.0)]);
    assert_eq!(out.len(), 1);
    let y = f64::from_bits(out[0]);
    assert!((y - 0.9640).abs() < 1e-3);
    assert_eq!(out[0], bits(2.0f64.tanh()));
}

#[test]
fn evaluate_linear_passes_weighted_sum_through() {
    let mut n = NeuralNetwork::new(2, vec![vec![Activation::Linear]]);
    n.set_weight(0, 0, bits(0.5));
    n.set_weight(0, 1, bits(2.0));
    n.set_weight(0, 2, bits(-1.0));
    let out = n.evaluate(&vec![bits(3.0), bits(4.0)]);
    // 0.5 * 1 + 3 * 2 - 4 = 2.5, every step exact in double precision
    assert_eq!(out[0], bits(2.5));
}

#[test]
fn evaluate_is_deterministic() {
    let mut n = NeuralNetwork::new(3, vec![vec![Activation::TanH, Activation::Linear], vec![
        Activation::TanH,
    ]]);
    let mut v = 0.1f64;
    for layer in 0..2 {
        let count = n.layers()[layer].all_weights().len();
        for idx in 0..count {
            n.set_weight(layer, idx, bits(v));
            v += 0.07;
        }
    }
    let inputs = vec![bits(0.3), bits(-0.2), bits(1.7)];
    let a = n.evaluate(&inputs);
    let b = n.evaluate(&inputs);
    assert_eq!(a, b);
}

#[test]
fn evaluate_chains_layers() {
    // layer 0: one Linear node computing 2 * x; layer 1: one Linear node
    // computing 3 * h
    let mut n = NeuralNetwork::new(1, vec![vec![Activation::Linear], vec![Activation::Linear]]);
    n.set_weight(0, 0, bits(0.0));
    n.set_weight(0, 1, bits(2.0));
    n.set_weight(1, 0, bits(0.0));
    n.set_weight(1, 1, bits(3.0));
    let out = n.evaluate(&vec![bits(5.0)]);
    assert_eq!(out[0], bits(30.0));
}

#[test]
fn duplicate_is_deep_and_bit_identical() {
    let mut n = NeuralNetwork::new(2, vec![vec![Activation::TanH]]);
    n.set_weight(0, 1, bits(4.25));
    let copy = n.duplicate();
    assert_eq!(copy.layers()[0].all_weights(), n.layers()[0].all_weights());
    let mut copy2 = copy;
    copy2.set_weight(0, 1, bits(9.0));
    assert_eq!(n.get_weight(0, 1), bits(4.25));
    assert_eq!(copy2.get_weight(0, 1), bits(9.0));
}

#[test]
fn structural_equality_compares_counts() {
    let a = NeuralNetwork::new(2, vec![vec![Activation::TanH, Activation::TanH]]);
    let b = NeuralNetwork::new(2, vec![vec![Activation::Linear, Activation::Linear]]);
    let c = NeuralNetwork::new(2, vec![vec![Activation::TanH]]);
    // activations differ but counts agree
    assert!(a.is_structurally_equal(&b));
    assert!(!a.is_structurally_equal(&c));
    // differing layer counts never compare equal, even with an equal prefix
    let d = NeuralNetwork::new(
        2,
        vec![vec![Activation::TanH, Activation::TanH], vec![Activation::TanH]],
    );
    assert!(!a.is_structurally_equal(&d));
    assert!(!d.is_structurally_equal(&a));
    assert!(a.is_structurally_equal(&a));
}

#[test]
fn node_weights_returns_one_row() {
    let mut n = NeuralNetwork::new(1, vec![vec![Activation::Linear, Activation::Linear]]);
    n.set_weight(0, 0, bits(1.0));
    n.set_weight(0, 1, bits(2.0));
    n.set_weight(0, 2, bits(3.0));
    n.set_weight(0, 3, bits(4.0));
    let layers = n.layers();
    let row1 = layers[0].node_weights(1).unwrap();
    assert_eq!(row1, vec![bits(3.0), bits(4.0)]);
    assert!(layers[0].node_weights(2).is_none());
}

#[test]
fn default_network_template_shape() {
    let t = NeuralNetworkTemplate::default();
    assert_eq!(t.input_count, 19);
    assert_eq!(t.layers.len(), 2);
    assert_eq!(t.layers[0].len(), 10);
    assert_eq!(t.layers[1].len(), 2);
}

#[test]
fn activation_evaluate_sums_products() {
    let products = vec![bits(1.0), bits(2.0), bits(3.5)];
    assert_eq!(Activation::Linear.evaluate(&products), bits(6.5));
    assert_eq!(Activation::TanH.evaluate(&products), bits(6.5f64.tanh()));
}

#[test]
fn activation_tanh_saturates() {
    let huge = vec![bits(1e300), bits(1e300)];
    assert_eq!(Activation::TanH.evaluate(&huge), bits(1.0));
    let tiny = vec![bits(f64::NEG_INFINITY)];
    assert_eq!(Activation::TanH.evaluate(&tiny), bits(-1.0));
}
