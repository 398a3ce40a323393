//! The network model: layers of weighted nodes and the forward pass.
//!
//! A network is an ordered sequence of layers. Layer i feeds layer i+1;
//! layer 0 reads the external inputs. Each node of a layer owns one row of
//! the layer's flat weight buffer: a bias slot followed by one weight per
//! input. All weights are bit patterns of doubles (see [`crate::fbits`]).

use vstd::prelude::*;

use crate::arith::{add_bits, mul_bits, tanh_bits, add_of, mul_of, tanh_of};
use crate::error::BrainsError;
use crate::fbits::{ge_bits, is_finite_bits, is_nan_bits, le_bits, lt_bits, NEG_ONE_BITS, POS_ZERO_BITS, ONE_BITS};
use crate::rng::draw_between;

verus! {

/// The activation applied to a node's weighted input sum.
#[derive(Clone, Copy, Debug, PartialEq, Eq, Structural)]
pub enum Activation {
    Linear,
    TanH,
}

/// The mathematical model of one layer: its declared fan-in, one
/// activation per node, and the flat weight buffer.
pub ghost struct LayerModel {
    pub input_count: nat,
    pub activations: Seq<Activation>,
    pub weights: Seq<u64>,
}

/// A layer is well formed when it has at least one input and one node and
/// its weight buffer holds exactly one row of `input_count + 1` slots per
/// node.
pub open spec fn layer_wf(l: LayerModel) -> bool {
    &&& l.input_count > 0
    &&& l.activations.len() > 0
    &&& l.weights.len() == (l.input_count + 1) * l.activations.len()
}

/// A network is well formed when it has at least one layer, every layer is
/// well formed, and each layer's declared fan-in equals the previous
/// layer's node count.
pub open spec fn net_wf(v: Seq<LayerModel>) -> bool {
    &&& v.len() > 0
    &&& forall|i: int| 0 <= i < v.len() ==> layer_wf(#[trigger] v[i])
    &&& forall|i: int| 1 <= i < v.len() ==> (#[trigger] v[i]).input_count == v[i - 1].activations.len()
}

/// Two layer sequences have the same shape: equal layer counts, fan-ins,
/// activations and weight-buffer lengths (only weight values may differ).
pub open spec fn same_shape(a: Seq<LayerModel>, b: Seq<LayerModel>) -> bool {
    &&& a.len() == b.len()
    &&& forall|i: int| 0 <= i < a.len() ==> {
        &&& (#[trigger] a[i]).input_count == b[i].input_count
        &&& a[i].activations == b[i].activations
        &&& a[i].weights.len() == b[i].weights.len()
    }
}

/// The structural comparison of the boundary layer: the two networks
/// have the same number of layers, and each layer pair agrees on node
/// count, weight-buffer length and fan-in. Activations and weight values
/// play no part.
pub open spec fn struct_eq(a: Seq<LayerModel>, b: Seq<LayerModel>) -> bool {
    &&& a.len() == b.len()
    &&& forall|i: int| 0 <= i < a.len() ==> {
        &&& (#[trigger] a[i]).activations.len() == b[i].activations.len()
        &&& a[i].weights.len() == b[i].weights.len()
        &&& a[i].input_count == b[i].input_count
    }
}

/// The left-to-right sum of the first `k` patterns of `s`, starting from
/// positive zero, through the named double addition.
pub open spec fn sum_bits(s: Seq<u64>, k: int) -> u64
    decreases k,
{
    if k <= 0 {
        POS_ZERO_BITS
    } else {
        add_of(sum_bits(s, k - 1), s[k - 1])
    }
}

/// What an activation returns for a node's vector of per-slot products:
/// their sum for `Linear`, the hyperbolic tangent of their sum for `TanH`.
pub open spec fn activation_out(a: Activation, products: Seq<u64>) -> u64 {
    match a {
        Activation::Linear => sum_bits(products, products.len() as int),
        Activation::TanH => tanh_of(sum_bits(products, products.len() as int)),
    }
}

/// The per-slot products of one node's weight row: the bias weight times
/// one, then each input times its weight.
pub open spec fn products_of(l: LayerModel, inputs: Seq<u64>, node: int) -> Seq<u64> {
    Seq::new(
        (l.input_count + 1) as nat,
        |j: int|
            if j == 0 {
                mul_of(ONE_BITS, l.weights[node * (l.input_count + 1)])
            } else {
                mul_of(inputs[j - 1], l.weights[node * (l.input_count + 1) + j])
            },
    )
}

/// What one node of a layer outputs for the given inputs.
pub open spec fn node_out(l: LayerModel, inputs: Seq<u64>, node: int) -> u64 {
    activation_out(l.activations[node], products_of(l, inputs, node))
}

/// What a whole layer outputs: one value per node.
pub open spec fn layer_out(l: LayerModel, inputs: Seq<u64>) -> Seq<u64> {
    Seq::new(l.activations.len(), |n: int| node_out(l, inputs, n))
}

/// The value flowing out of the first `k` layers.
pub open spec fn net_out_upto(v: Seq<LayerModel>, inputs: Seq<u64>, k: int) -> Seq<u64>
    decreases k,
{
    if k <= 0 {
        inputs
    } else {
        layer_out(v[k - 1], net_out_upto(v, inputs, k - 1))
    }
}

/// The network's forward pass: the last layer's output.
pub open spec fn net_eval(v: Seq<LayerModel>, inputs: Seq<u64>) -> Seq<u64> {
    net_out_upto(v, inputs, v.len() as int)
}

/// The number of nodes in the first `k` layers.
pub open spec fn nodes_upto(v: Seq<LayerModel>, k: int) -> nat
    decreases k,
{
    if k <= 0 {
        0
    } else {
        nodes_upto(v, k - 1) + v[k - 1].activations.len()
    }
}

/// The total node count of a network.
pub open spec fn total_nodes_spec(v: Seq<LayerModel>) -> nat {
    nodes_upto(v, v.len() as int)
}

/// The number of weight slots in the first `k` layers.
pub open spec fn weights_upto(v: Seq<LayerModel>, k: int) -> nat
    decreases k,
{
    if k <= 0 {
        0
    } else {
        weights_upto(v, k - 1) + v[k - 1].weights.len()
    }
}

/// The total weight count of a network.
pub open spec fn total_weights_spec(v: Seq<LayerModel>) -> nat {
    weights_upto(v, v.len() as int)
}

/// Shape agreement is symmetric.
pub proof fn lemma_same_shape_sym(a: Seq<LayerModel>, b: Seq<LayerModel>)
    requires
        same_shape(a, b),
    ensures
        same_shape(b, a),
{
}

/// Shape agreement chains.
pub proof fn lemma_same_shape_trans(a: Seq<LayerModel>, b: Seq<LayerModel>, c: Seq<LayerModel>)
    requires
        same_shape(a, b),
        same_shape(b, c),
    ensures
        same_shape(a, c),
{
}

/// A sequence with the shape of a well-formed network is well formed.
pub proof fn lemma_same_shape_wf(a: Seq<LayerModel>, b: Seq<LayerModel>)
    requires
        same_shape(a, b),
        net_wf(b),
    ensures
        net_wf(a),
{
    assert forall|i: int| 0 <= i < a.len() implies layer_wf(#[trigger] a[i]) by {
        assert(layer_wf(b[i]));
    }
}

pub proof fn lemma_nodes_upto_mono(v: Seq<LayerModel>, k: int, m: int)
    requires
        0 <= k <= m,
    ensures
        nodes_upto(v, k) <= nodes_upto(v, m),
    decreases m,
{
    if k < m {
        lemma_nodes_upto_mono(v, k, m - 1);
    }
}

pub proof fn lemma_weights_upto_mono(v: Seq<LayerModel>, k: int, m: int)
    requires
        0 <= k <= m,
    ensures
        weights_upto(v, k) <= weights_upto(v, m),
    decreases m,
{
    if k < m {
        lemma_weights_upto_mono(v, k, m - 1);
    }
}

/// Copies a vector of plainly copyable values.
pub fn copy_vec<T: Copy>(v: &Vec<T>) -> (r: Vec<T>)
    ensures
        r@ == v@,
{
    let mut r: Vec<T> = Vec::new();
    let mut i: usize = 0;
    while i < v.len()
        invariant
            0 <= i <= v.len(),
            r@ =~= v@.subrange(0, i as int),
        decreases v.len() - i,
    {
        r.push(v[i]);
        i += 1;
    }
    proof {
        assert(r@ =~= v@);
    }
    r
}

impl Activation {
    /// The activation applied to a node's product vector: the sum of the
    /// products, through the hyperbolic tangent for `TanH`. The tangent
    /// saturates: a non-NaN sum always yields a non-NaN value between
    /// minus one and one.
    pub fn evaluate(&self, input: &Vec<u64>) -> (r: u64)
        ensures
            r == activation_out(*self, input@),
            *self == Activation::TanH && !is_nan_bits(
                sum_bits(input@, input@.len() as int),
            ) ==> !is_nan_bits(r) && ge_bits(r, NEG_ONE_BITS) && le_bits(r, ONE_BITS),
    {
        match self {
            Activation::Linear => sum_all(input),
            Activation::TanH => tanh_bits(sum_all(input)),
        }
    }
}

/// The left-to-right sum of a product vector, starting from positive zero.
fn sum_all(v: &Vec<u64>) -> (r: u64)
    ensures
        r == sum_bits(v@, v@.len() as int),
{
    let mut acc: u64 = POS_ZERO_BITS;
    let mut k: usize = 0;
    while k < v.len()
        invariant
            0 <= k <= v.len(),
            acc == sum_bits(v@, k as int),
        decreases v.len() - k,
    {
        acc = add_bits(acc, v[k]);
        k += 1;
    }
    acc
}

/// One layer: its declared fan-in, one activation per node, and the flat
/// weight buffer, one row of `input_count + 1` slots per node with the
/// bias in slot zero.
pub struct Layer {
    input_count: usize,
    activations: Vec<Activation>,
    weights: Vec<u64>,
}

impl View for Layer {
    type V = LayerModel;

    closed spec fn view(&self) -> LayerModel {
        LayerModel {
            input_count: self.input_count as nat,
            activations: self.activations@,
            weights: self.weights@,
        }
    }
}

impl Layer {
    /// Builds a layer with every weight slot zero-initialised.
    pub fn new(input_count: usize, activations: Vec<Activation>) -> (r: Layer)
        requires
            input_count > 0,
            activations@.len() > 0,
            (input_count + 1) * activations@.len() <= usize::MAX,
        ensures
            r@.input_count == input_count,
            r@.activations == activations@,
            r@.weights == Seq::new(((input_count + 1) * activations@.len()) as nat, |j: int| 0u64),
            layer_wf(r@),
    {
        proof {
            assert((input_count + 1) <= (input_count + 1) * activations@.len()) by (nonlinear_arith)
                requires
                    activations@.len() >= 1,
                    input_count >= 0,
            ;
        }
        let total: usize = (input_count + 1) * activations.len();
        let mut weights: Vec<u64> = Vec::new();
        let mut j: usize = 0;
        while j < total
            invariant
                0 <= j <= total,
                weights@ =~= Seq::new(j as nat, |k: int| 0u64),
            decreases total - j,
        {
            weights.push(0u64);
            j += 1;
        }
        proof {
            assert(weights@ =~= Seq::new(total as nat, |k: int| 0u64));
        }
        Layer { input_count, activations, weights }
    }

    /// The activations, one per node.
    pub fn activations(&self) -> (r: &Vec<Activation>)
        ensures
            r@ == self@.activations,
    {
        &self.activations
    }

    /// The flat weight buffer.
    pub fn all_weights(&self) -> (r: &Vec<u64>)
        ensures
            r@ == self@.weights,
    {
        &self.weights
    }

    /// The declared fan-in of the layer.
    pub fn input_count(&self) -> (r: usize)
        ensures
            r == self@.input_count,
    {
        self.input_count
    }

    /// The length of one node's weight row: the fan-in plus the bias slot.
    pub fn row_len(&self) -> (r: usize)
        requires
            layer_wf(self@),
        ensures
            r == self@.input_count + 1,
    {
        let wl = self.weights.len();
        proof {
            assert(self@.input_count + 1 <= wl) by (nonlinear_arith)
                requires
                    wl == (self@.input_count + 1) * self@.activations.len(),
                    self@.activations.len() >= 1,
                    self@.input_count >= 0,
            ;
        }
        self.input_count + 1
    }

    /// The number of nodes of the layer.
    pub fn node_count(&self) -> (r: usize)
        ensures
            r == self@.activations.len(),
    {
        self.activations.len()
    }

    /// A copy of one node's weight row, or nothing for an out-of-range
    /// node index.
    pub fn node_weights(&self, node: usize) -> (r: Option<Vec<u64>>)
        requires
            layer_wf(self@),
        ensures
            node < self@.activations.len() ==> (r matches Some(row) && row@ == self@.weights.subrange(
                node * (self@.input_count + 1),
                (node + 1) * (self@.input_count + 1),
            )),
            node >= self@.activations.len() ==> r is None,
    {
        let nodes = self.activations.len();
        if node >= nodes {
            return None;
        }
        let wl = self.weights.len();
        proof {
            assert(self@.input_count + 1 <= wl) by (nonlinear_arith)
                requires
                    wl == (self@.input_count + 1) * self@.activations.len(),
                    self@.activations.len() >= 1,
                    self@.input_count >= 0,
            ;
        }
        let row: usize = self.input_count + 1;
        proof {
            assert(node * row + row <= wl) by (nonlinear_arith)
                requires
                    wl == row * self@.activations.len(),
                    node + 1 <= self@.activations.len(),
                    row >= 0,
                    node >= 0,
            ;
        }
        let base: usize = node * row;
        let mut out: Vec<u64> = Vec::new();
        let mut k: usize = 0;
        while k < row
            invariant
                0 <= k <= row,
                base == node * row,
                base + row <= self@.weights.len(),
                out@ =~= self@.weights.subrange(base as int, base + k),
            decreases row - k,
        {
            out.push(self.weights[base + k]);
            proof {
                assert(out@ =~= self@.weights.subrange(base as int, base + k + 1));
            }
            k += 1;
        }
        proof {
            assert((node + 1) * (self@.input_count + 1) == node * (self@.input_count + 1) + (
            self@.input_count + 1)) by (nonlinear_arith);
        }
        Some(out)
    }

    /// Runs the layer on one input vector: for each node, the bias plus
    /// the weighted inputs, summed left to right and passed through the
    /// node's activation.
    pub fn evaluate(&self, input: &Vec<u64>) -> (out: Vec<u64>)
        requires
            layer_wf(self@),
            input@.len() == self@.input_count,
        ensures
            out@ == layer_out(self@, input@),
    {
        let wl = self.weights.len();
        proof {
            assert(self@.input_count + 1 <= wl) by (nonlinear_arith)
                requires
                    wl == (self@.input_count + 1) * self@.activations.len(),
                    self@.activations.len() >= 1,
                    self@.input_count >= 0,
            ;
        }
        let row: usize = self.input_count + 1;
        let nodes: usize = self.activations.len();
        let mut out: Vec<u64> = Vec::new();
        let mut node: usize = 0;
        let mut base: usize = 0;
        while node < nodes
            invariant
                0 <= node <= nodes,
                base == node * row,
                out@.len() == node,
                forall|i: int| 0 <= i < node ==> out@[i] == node_out(self@, input@, i),
            decreases nodes - node,
        {
            proof {
                assert(node * row + row <= wl) by (nonlinear_arith)
                    requires
                        wl == row * self@.activations.len(),
                        node + 1 <= self@.activations.len(),
                        row >= 0,
                        node >= 0,
                ;
            }
            let mut products: Vec<u64> = Vec::new();
            products.push(mul_bits(ONE_BITS, self.weights[base]));
            let mut k: usize = 1;
            while k < row
                invariant
                    1 <= k <= row,
                    base == node * row,
                    base + row <= self@.weights.len(),
                    node < nodes,
                    products@.len() == k,
                    forall|j: int| 0 <= j < k ==> products@[j] == products_of(self@, input@, node as int)[j],
                decreases row - k,
            {
                products.push(mul_bits(input[k - 1], self.weights[base + k]));
                k += 1;
            }
            proof {
                assert(products@ =~= products_of(self@, input@, node as int));
            }
            let v = self.activations[node].evaluate(&products);
            out.push(v);
            proof {
                assert((node + 1) * row == node * row + row) by (nonlinear_arith);
            }
            node += 1;
            base += row;
        }
        proof {
            assert(out@ =~= layer_out(self@, input@));
        }
        out
    }
}

/// A fixed-topology feed-forward network.
pub struct NeuralNetwork {
    layers: Vec<Layer>,
}

impl View for NeuralNetwork {
    type V = Seq<LayerModel>;

    closed spec fn view(&self) -> Seq<LayerModel> {
        self.layers@.map_values(|l: Layer| l@)
    }
}

/// A template of a network: the external input count and the activations
/// of each layer, one inner vector per layer.
pub struct NeuralNetworkTemplate {
    pub input_count: usize,
    pub layers: Vec<Vec<Activation>>,
}

impl Default for NeuralNetworkTemplate {
    /// Nineteen inputs into a hidden layer of ten hyperbolic-tangent
    /// nodes and an output layer of two.
    fn default() -> (r: Self)
        ensures
            r.input_count == 19,
            r.layers@.len() == 2,
            r.layers@[0]@ == Seq::new(10, |i: int| Activation::TanH),
            r.layers@[1]@ == Seq::new(2, |i: int| Activation::TanH),
    {
        let mut hidden: Vec<Activation> = Vec::new();
        let mut i: usize = 0;
        while i < 10
            invariant
                0 <= i <= 10,
                hidden@ =~= Seq::new(i as nat, |k: int| Activation::TanH),
            decreases 10 - i,
        {
            hidden.push(Activation::TanH);
            i += 1;
        }
        let mut out: Vec<Activation> = Vec::new();
        out.push(Activation::TanH);
        out.push(Activation::TanH);
        proof {
            assert(hidden@ =~= Seq::new(10, |k: int| Activation::TanH));
            assert(out@ =~= Seq::new(2, |k: int| Activation::TanH));
        }
        let mut layers: Vec<Vec<Activation>> = Vec::new();
        layers.push(hidden);
        layers.push(out);
        NeuralNetworkTemplate { input_count: 19, layers }
    }
}

impl NeuralNetworkTemplate {
    /// A deep copy of the template.
    pub fn duplicate(&self) -> (r: NeuralNetworkTemplate)
        ensures
            r.input_count == self.input_count,
            r.layers@.len() == self.layers@.len(),
            forall|i: int| 0 <= i < r.layers@.len() ==> (#[trigger] r.layers@[i])@ == self.layers@[i]@,
    {
        let mut layers: Vec<Vec<Activation>> = Vec::new();
        let mut i: usize = 0;
        while i < self.layers.len()
            invariant
                0 <= i <= self.layers@.len(),
                layers@.len() == i,
                forall|k: int| 0 <= k < i ==> (#[trigger] layers@[k])@ == self.layers@[k]@,
            decreases self.layers@.len() - i,
        {
            layers.push(copy_vec(&self.layers[i]));
            i += 1;
        }
        NeuralNetworkTemplate { input_count: self.input_count, layers }
    }
}

/// The fan-in that layer `i` of a template will declare.
pub open spec fn template_fan_in(t: NeuralNetworkTemplate, i: int) -> nat {
    if i <= 0 {
        t.input_count as nat
    } else {
        t.layers@[i - 1]@.len()
    }
}

/// Every layer's weight buffer of the templated network fits in a usize.
pub open spec fn template_sizes_fit(t: NeuralNetworkTemplate) -> bool {
    forall|i: int| 0 <= i < t.layers@.len() ==> (template_fan_in(t, i) + 1) * (#[trigger] t.layers@[i])@.len() <= usize::MAX
}

/// The error a template is rejected with: a zero input count, no layers,
/// or an empty layer, checked in that order; `NoError` when it is valid.
pub open spec fn template_error(t: NeuralNetworkTemplate) -> BrainsError {
    if t.input_count == 0 {
        BrainsError::NeuralNetworkConfigInputCountNull
    } else if t.layers@.len() == 0 {
        BrainsError::NeuralNetworkConfigNoLayers
    } else if exists|i: int| 0 <= i < t.layers@.len() && (#[trigger] t.layers@[i])@.len() == 0 {
        BrainsError::NeuralNetworkConfigEmptyLayer
    } else {
        BrainsError::NoError
    }
}

/// The built network mirrors the template: one layer per activation list,
/// the declared fan-ins, and every weight zero.
pub open spec fn matches_template(v: Seq<LayerModel>, t: NeuralNetworkTemplate) -> bool {
    &&& v.len() == t.layers@.len()
    &&& forall|i: int| 0 <= i < v.len() ==> (#[trigger] v[i]).activations == t.layers@[i]@
    &&& forall|i: int| 0 <= i < v.len() ==> (#[trigger] v[i]).input_count == template_fan_in(t, i)
    &&& forall|i: int, j: int|
        0 <= i < v.len() && 0 <= j < v[i].weights.len() ==> (#[trigger] v[i].weights[j]) == 0u64
}

impl NeuralNetwork {
    /// Validates a template and builds the zero-initialised network, or
    /// reports the first failing check.
    #[verifier::rlimit(40)]
    pub fn from_template(template: &NeuralNetworkTemplate) -> (r: Result<NeuralNetwork, BrainsError>)
        requires
            template_sizes_fit(*template),
        ensures
            template_error(*template) == BrainsError::NoError ==> (r matches Ok(n) && net_wf(n@)
                && matches_template(n@, *template)),
            template_error(*template) != BrainsError::NoError ==> r == Err::<
                NeuralNetwork,
                BrainsError,
            >(template_error(*template)),
    {
        if template.input_count == 0 {
            return Err(BrainsError::NeuralNetworkConfigInputCountNull);
        }
        if template.layers.len() == 0 {
            return Err(BrainsError::NeuralNetworkConfigNoLayers);
        }
        let mut i: usize = 0;
        while i < template.layers.len()
            invariant
                0 <= i <= template.layers@.len(),
                forall|j: int| 0 <= j < i ==> (#[trigger] template.layers@[j])@.len() != 0,
            decreases template.layers@.len() - i,
        {
            if template.layers[i].len() == 0 {
                return Err(BrainsError::NeuralNetworkConfigEmptyLayer);
            }
            i += 1;
        }
        let mut activation_layers: Vec<Vec<Activation>> = Vec::new();
        let mut k: usize = 0;
        while k < template.layers.len()
            invariant
                0 <= k <= template.layers@.len(),
                activation_layers@.len() == k,
                forall|j: int| 0 <= j < k ==> (#[trigger] activation_layers@[j])@ == template.layers@[j]@,
            decreases template.layers@.len() - k,
        {
            activation_layers.push(copy_vec(&template.layers[k]));
            k += 1;
        }
        proof {
            assert forall|j: int| 0 <= j < activation_layers@.len() implies (
            #[trigger] activation_layers@[j])@.len() > 0 by {
                assert(template.layers@[j]@.len() != 0);
            }
            assert forall|j: int|
                0 <= j < activation_layers@.len() implies (layer_fan_in(
                template.input_count,
                activation_layers@,
                j,
            ) + 1) * (#[trigger] activation_layers@[j])@.len() <= usize::MAX by {
                assert(layer_fan_in(template.input_count, activation_layers@, j)
                    == template_fan_in(*template, j));
                assert((template_fan_in(*template, j) + 1) * template.layers@[j]@.len()
                    <= usize::MAX);
            }
        }
        let n = NeuralNetwork::new(template.input_count, activation_layers);
        proof {
            assert forall|j: int| 0 <= j < n@.len() implies (#[trigger] n@[j]).activations
                == template.layers@[j]@ by {
                assert(activation_layers@[j]@ == template.layers@[j]@);
            }
            assert forall|j: int| 0 <= j < n@.len() implies (#[trigger] n@[j]).input_count
                == template_fan_in(*template, j) by {
                assert(layer_fan_in(template.input_count, activation_layers@, j)
                    == template_fan_in(*template, j));
            }
        }
        Ok(n)
    }

    /// Builds the zero-initialised network for an input count and one
    /// activation list per layer.
    pub fn new(input_count: usize, activation_layers: Vec<Vec<Activation>>) -> (r: NeuralNetwork)
        requires
            input_count > 0,
            activation_layers@.len() > 0,
            forall|i: int| 0 <= i < activation_layers@.len() ==> (#[trigger] activation_layers@[i])@.len() > 0,
            forall|i: int| 0 <= i < activation_layers@.len() ==> (layer_fan_in(input_count, activation_layers@, i) + 1) * (#[trigger] activation_layers@[i])@.len() <= usize::MAX,
        ensures
            net_wf(r@),
            r@.len() == activation_layers@.len(),
            forall|i: int| 0 <= i < r@.len() ==> (#[trigger] r@[i]).activations == activation_layers@[i]@,
            forall|i: int| 0 <= i < r@.len() ==> (#[trigger] r@[i]).input_count == layer_fan_in(input_count, activation_layers@, i),
            forall|i: int, j: int|
                0 <= i < r@.len() && 0 <= j < r@[i].weights.len() ==> (#[trigger] r@[i].weights[j]) == 0u64,
    {
        let mut layers: Vec<Layer> = Vec::new();
        let mut fan: usize = input_count;
        let mut i: usize = 0;
        while i < activation_layers.len()
            invariant
                0 <= i <= activation_layers@.len(),
                layers@.len() == i,
                fan == layer_fan_in(input_count, activation_layers@, i as int),
                fan > 0,
                forall|k: int| 0 <= k < i ==> (#[trigger] layers@[k]@).activations == activation_layers@[k]@,
                forall|k: int| 0 <= k < i ==> (#[trigger] layers@[k]@).input_count == layer_fan_in(input_count, activation_layers@, k),
                forall|k: int| 0 <= k < i ==> layer_wf(#[trigger] layers@[k]@),
                forall|k: int, j: int|
                    0 <= k < i && 0 <= j < layers@[k]@.weights.len() ==> (#[trigger] layers@[k]@.weights[j]) == 0u64,
            decreases activation_layers@.len() - i,
        {
            let acts = copy_vec(&activation_layers[i]);
            let l = Layer::new(fan, acts);
            fan = l.node_count();
            layers.push(l);
            i += 1;
        }
        let r = NeuralNetwork { layers };
        proof {
            assert(forall|k: int| 0 <= k < r@.len() ==> r@[k] == layers@[k]@);
        }
        r
    }

    /// Equal layer counts, and per layer pair equal node counts, equal
    /// weight-buffer lengths and equal fan-ins.
    pub fn is_structurally_equal(&self, other: &NeuralNetwork) -> (r: bool)
        ensures
            r == struct_eq(self@, other@),
    {
        let m = self.layers.len();
        if m != other.layers.len() {
            return false;
        }
        let mut i: usize = 0;
        while i < m
            invariant
                0 <= i <= m,
                m == self@.len() && m == other@.len(),
                forall|j: int| 0 <= j < i ==> {
                    &&& (#[trigger] self@[j]).activations.len() == other@[j].activations.len()
                    &&& self@[j].weights.len() == other@[j].weights.len()
                    &&& self@[j].input_count == other@[j].input_count
                },
            decreases m - i,
        {
            let sl = &self.layers[i];
            let ol = &other.layers[i];
            proof {
                assert(sl@ == self@[i as int]);
                assert(ol@ == other@[i as int]);
            }
            if !(sl.activations.len() == ol.activations.len() && sl.weights.len() == ol.weights.len()
                && sl.input_count == ol.input_count) {
                return false;
            }
            i += 1;
        }
        true
    }

    /// The total node count across all layers.
    pub fn total_nodes(&self) -> (r: usize)
        requires
            total_nodes_spec(self@) <= usize::MAX,
        ensures
            r == total_nodes_spec(self@),
    {
        let mut acc: usize = 0;
        let mut i: usize = 0;
        while i < self.layers.len()
            invariant
                0 <= i <= self@.len(),
                acc == nodes_upto(self@, i as int),
            decreases self@.len() - i,
        {
            proof {
                lemma_nodes_upto_mono(self@, i + 1, self@.len() as int);
            }
            acc = acc + self.layers[i].activations.len();
            i += 1;
        }
        acc
    }

    /// The total weight count across all layers.
    pub fn total_weights(&self) -> (r: usize)
        requires
            total_weights_spec(self@) <= usize::MAX,
        ensures
            r == total_weights_spec(self@),
    {
        let mut acc: usize = 0;
        let mut i: usize = 0;
        while i < self.layers.len()
            invariant
                0 <= i <= self@.len(),
                acc == weights_upto(self@, i as int),
            decreases self@.len() - i,
        {
            proof {
                lemma_weights_upto_mono(self@, i + 1, self@.len() as int);
            }
            acc = acc + self.layers[i].weights.len();
            i += 1;
        }
        acc
    }

    /// The layers, in evaluation order.
    pub fn layers(&self) -> (r: &Vec<Layer>)
        ensures
            r@.map_values(|l: Layer| l@) == self@,
    {
        &self.layers
    }

    /// The number of layers.
    pub fn layer_count(&self) -> (r: usize)
        ensures
            r == self@.len(),
    {
        self.layers.len()
    }

    /// The external input count the network expects.
    pub fn input_count(&self) -> (r: usize)
        requires
            net_wf(self@),
        ensures
            r == self@[0].input_count,
    {
        self.layers[0].input_count
    }

    /// The number of values the network produces.
    pub fn output_count(&self) -> (r: usize)
        requires
            net_wf(self@),
        ensures
            r == self@[self@.len() - 1].activations.len(),
    {
        self.layers[self.layers.len() - 1].activations.len()
    }

    /// The row length of one layer: its fan-in plus the bias slot.
    pub fn layer_row_len(&self, layer: usize) -> (r: usize)
        requires
            layer < self@.len(),
            layer_wf(self@[layer as int]),
        ensures
            r == self@[layer as int].input_count + 1,
    {
        let l = &self.layers[layer];
        proof {
            assert(l@ == self@[layer as int]);
        }
        l.row_len()
    }

    /// The node count of one layer.
    pub fn layer_node_count(&self, layer: usize) -> (r: usize)
        requires
            layer < self@.len(),
        ensures
            r == self@[layer as int].activations.len(),
    {
        let l = &self.layers[layer];
        proof {
            assert(l@ == self@[layer as int]);
        }
        l.node_count()
    }

    /// The weight-buffer length of one layer.
    pub fn layer_weight_count(&self, layer: usize) -> (r: usize)
        requires
            layer < self@.len(),
        ensures
            r == self@[layer as int].weights.len(),
    {
        let l = &self.layers[layer];
        proof {
            assert(l@ == self@[layer as int]);
        }
        l.weights.len()
    }

    /// One weight slot of one layer.
    pub fn get_weight(&self, layer: usize, idx: usize) -> (r: u64)
        requires
            layer < self@.len(),
            idx < self@[layer as int].weights.len(),
        ensures
            r == self@[layer as int].weights[idx as int],
    {
        self.layers[layer].weights[idx]
    }

    /// Overwrites one weight slot of one layer; everything else is kept.
    pub fn set_weight(&mut self, layer: usize, idx: usize, v: u64)
        requires
            layer < old(self)@.len(),
            idx < old(self)@[layer as int].weights.len(),
        ensures
            final(self)@ =~= old(self)@.update(
                layer as int,
                LayerModel {
                    weights: old(self)@[layer as int].weights.update(idx as int, v),
                    ..old(self)@[layer as int]
                },
            ),
    {
        let l = &mut self.layers[layer];
        l.weights[idx] = v;
    }

    /// A deep copy: the clone owns its weights and matches the original
    /// bit for bit.
    pub fn duplicate(&self) -> (r: NeuralNetwork)
        ensures
            r@ == self@,
    {
        let mut layers: Vec<Layer> = Vec::new();
        let mut i: usize = 0;
        while i < self.layers.len()
            invariant
                0 <= i <= self@.len(),
                layers@.len() == i,
                forall|j: int| 0 <= j < i ==> (#[trigger] layers@[j]@) == self@[j],
            decreases self@.len() - i,
        {
            let src = &self.layers[i];
            let l = Layer {
                input_count: src.input_count,
                activations: copy_vec(&src.activations),
                weights: copy_vec(&src.weights),
            };
            layers.push(l);
            i += 1;
        }
        let r = NeuralNetwork { layers };
        proof {
            assert(r@ =~= self@);
        }
        r
    }

    /// Runs the forward pass: each layer feeds the next, and the last
    /// layer's output is returned. A pure function of the weights and the
    /// inputs.
    pub fn evaluate(&self, inputs: &Vec<u64>) -> (out: Vec<u64>)
        requires
            net_wf(self@),
            inputs@.len() == self@[0].input_count,
        ensures
            out@ == net_eval(self@, inputs@),
            out@.len() == self@[self@.len() - 1].activations.len(),
    {
        let mut cur = copy_vec(inputs);
        let mut i: usize = 0;
        while i < self.layers.len()
            invariant
                0 <= i <= self@.len(),
                cur@ == net_out_upto(self@, inputs@, i as int),
            decreases self@.len() - i,
        {
            proof {
                assert(self.layers@[i as int]@ == self@[i as int]);
                assert(layer_wf(self@[i as int]));
                if i > 0 {
                    assert(net_out_upto(self@, inputs@, i as int) == layer_out(
                        self@[i - 1],
                        net_out_upto(self@, inputs@, i - 1),
                    ));
                    assert(cur@.len() == self@[i - 1].activations.len());
                }
            }
            cur = self.layers[i].evaluate(&cur);
            i += 1;
        }
        cur
    }

    /// True exactly when the network satisfies the shape invariant.
    pub fn is_well_formed(&self) -> (r: bool)
        ensures
            r == net_wf(self@),
    {
        if self.layers.len() == 0 {
            return false;
        }
        let mut i: usize = 0;
        while i < self.layers.len()
            invariant
                0 <= i <= self@.len(),
                self@.len() > 0,
                forall|j: int| 0 <= j < i ==> layer_wf(#[trigger] self@[j]),
                forall|j: int| 1 <= j < i ==> (#[trigger] self@[j]).input_count == self@[j - 1].activations.len(),
            decreases self@.len() - i,
        {
            let l = &self.layers[i];
            proof {
                assert(l@ == self@[i as int]);
            }
            let ic = l.input_count;
            let nodes = l.activations.len();
            if ic == 0 || nodes == 0 {
                proof {
                    assert(!layer_wf(self@[i as int]));
                }
                return false;
            }
            proof {
                assert((ic as u128 + 1) * (nodes as u128) <= 0x1_0000_0000_0000_0000u128
                    * 0xFFFF_FFFF_FFFF_FFFFu128) by (nonlinear_arith)
                    requires
                        ic as u128 <= 0xFFFF_FFFF_FFFF_FFFFu128,
                        nodes as u128 <= 0xFFFF_FFFF_FFFF_FFFFu128,
                ;
            }
            let expected: u128 = (ic as u128 + 1) * (nodes as u128);
            if (l.weights.len() as u128) != expected {
                proof {
                    assert(!layer_wf(self@[i as int]));
                }
                return false;
            }
            proof {
                assert(layer_wf(self@[i as int]));
            }
            if i > 0 {
                let prev = &self.layers[i - 1];
                proof {
                    assert(prev@ == self@[i - 1]);
                }
                if ic != prev.activations.len() {
                    return false;
                }
            }
            i += 1;
        }
        true
    }

    /// Overwrites every weight of the network with a fresh draw encoding
    /// a value in [lo, hi), keeping the shape.
    pub fn randomize_weights(
        &mut self,
        rng: &mut rand::rngs::ThreadRng,
        lo: u64,
        hi: u64,
    )
        requires
            is_finite_bits(lo),
            is_finite_bits(hi),
            lt_bits(lo, hi),
        ensures
            same_shape(final(self)@, old(self)@),
            forall|l: int, w: int|
                0 <= l < final(self)@.len() && 0 <= w < final(self)@[l].weights.len() ==> le_bits(
                    lo,
                    #[trigger] final(self)@[l].weights[w],
                ) && lt_bits(final(self)@[l].weights[w], hi),
    {
        let mut i: usize = 0;
        while i < self.layers.len()
            invariant
                0 <= i <= old(self)@.len(),
                same_shape(self@, old(self)@),
                forall|l: int, w: int|
                    0 <= l < i && 0 <= w < self@[l].weights.len() ==> le_bits(
                        lo,
                        #[trigger] self@[l].weights[w],
                    ) && lt_bits(self@[l].weights[w], hi),
            decreases old(self)@.len() - i,
        {
            proof {
                assert(self.layers@[i as int]@ == self@[i as int]);
                assert(self@[i as int].weights.len() == old(self)@[i as int].weights.len());
            }
            let count = self.layers[i].weights.len();
            let mut j: usize = 0;
            while j < count
                invariant
                    0 <= j <= count,
                    i < old(self)@.len(),
                    count == old(self)@[i as int].weights.len(),
                    same_shape(self@, old(self)@),
                    forall|l: int, w: int|
                        0 <= l < i && 0 <= w < self@[l].weights.len() ==> le_bits(
                            lo,
                            #[trigger] self@[l].weights[w],
                        ) && lt_bits(self@[l].weights[w], hi),
                    forall|w: int|
                        0 <= w < j ==> le_bits(lo, #[trigger] self@[i as int].weights[w])
                            && lt_bits(self@[i as int].weights[w], hi),
                decreases count - j,
            {
                let v = draw_between(rng, lo, hi);
                proof {
                    assert(self@[i as int].weights.len() == old(self)@[i as int].weights.len());
                }
                self.set_weight(i, j, v);
                j += 1;
            }
            i += 1;
        }
    }
}

/// The node count of the first `k` templated layers.
pub open spec fn template_nodes_upto(t: NeuralNetworkTemplate, k: int) -> nat
    decreases k,
{
    if k <= 0 {
        0
    } else {
        template_nodes_upto(t, k - 1) + t.layers@[k - 1]@.len()
    }
}

/// The total node count the templated network will have.
pub open spec fn template_total_nodes(t: NeuralNetworkTemplate) -> nat {
    template_nodes_upto(t, t.layers@.len() as int)
}

/// The weight count of the first `k` templated layers.
pub open spec fn template_weights_upto(t: NeuralNetworkTemplate, k: int) -> nat
    decreases k,
{
    if k <= 0 {
        0
    } else {
        template_weights_upto(t, k - 1) + (template_fan_in(t, k - 1) + 1) * t.layers@[k
            - 1]@.len()
    }
}

/// The total weight count the templated network will have.
pub open spec fn template_total_weights(t: NeuralNetworkTemplate) -> nat {
    template_weights_upto(t, t.layers@.len() as int)
}

proof fn lemma_template_totals_upto(v: Seq<LayerModel>, t: NeuralNetworkTemplate, k: int)
    requires
        net_wf(v),
        matches_template(v, t),
        0 <= k <= v.len(),
    ensures
        nodes_upto(v, k) == template_nodes_upto(t, k),
        weights_upto(v, k) == template_weights_upto(t, k),
    decreases k,
{
    if k > 0 {
        lemma_template_totals_upto(v, t, k - 1);
        assert(v[k - 1].activations.len() == t.layers@[k - 1]@.len());
        assert(v[k - 1].weights.len() == (v[k - 1].input_count + 1) * v[k - 1].activations.len());
        assert(v[k - 1].input_count == template_fan_in(t, k - 1));
    }
}

/// A built network has exactly the node and weight totals its template
/// describes.
pub proof fn lemma_template_totals(v: Seq<LayerModel>, t: NeuralNetworkTemplate)
    requires
        net_wf(v),
        matches_template(v, t),
    ensures
        total_nodes_spec(v) == template_total_nodes(t),
        total_weights_spec(v) == template_total_weights(t),
{
    lemma_template_totals_upto(v, t, v.len() as int);
}

/// The fan-in that layer `i` declares when a network is built from an
/// input count and per-layer activation lists.
pub open spec fn layer_fan_in(input_count: usize, layers: Seq<Vec<Activation>>, i: int) -> nat {
    if i <= 0 {
        input_count as nat
    } else {
        layers[i - 1]@.len()
    }
}

} // verus!
