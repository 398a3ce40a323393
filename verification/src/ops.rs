//! The crossover and mutation operators over whole networks.

use vstd::prelude::*;

use crate::arith::{add_bits, mul_bits};
use crate::crossover_settings::{CrossoverMethod, CrossoverSettings};
use crate::fbits::{
    is_zero_bits, le_bits, lt_bits, order_key, SIGN_MASK, ONE_BITS, POS_ZERO_BITS,
};
use crate::gen::SpecimenWriter;
use crate::mutation_settings::{MutationMethod, MutationSettings};
use crate::nn::{lemma_same_shape_wf, net_wf, same_shape, LayerModel, NeuralNetwork};
use crate::rng::{choose_distinct, draw_between, rand_range_usize};

verus! {

/// A weight index lies in the row of the given node.
pub open spec fn in_node_row(input_count: nat, node: int, w: int) -> bool {
    node * (input_count + 1) <= w < (node + 1) * (input_count + 1)
}

/// Every weight slot of the offspring pair (x, y) holds the two parent
/// values of that slot: either x kept a's value and y kept b's, or the
/// slot was exchanged between them. Crossover only ever swaps same-slot
/// weights of its two clones, so this is conserved by every operation.
pub open spec fn slots_exchanged(
    x: Seq<LayerModel>,
    y: Seq<LayerModel>,
    a: Seq<LayerModel>,
    b: Seq<LayerModel>,
) -> bool {
    forall|l: int, w: int|
        0 <= l < a.len() && 0 <= w < a[l].weights.len() ==> {
            ||| (#[trigger] x[l].weights[w]) == a[l].weights[w] && y[l].weights[w]
                == b[l].weights[w]
            ||| x[l].weights[w] == b[l].weights[w] && y[l].weights[w] == a[l].weights[w]
        }
}

/// Every weight slot of one offspring holds one of the two parents'
/// values at that slot.
pub open spec fn slots_from_parents(
    m: Seq<LayerModel>,
    a: Seq<LayerModel>,
    b: Seq<LayerModel>,
) -> bool {
    forall|l: int, w: int|
        0 <= l < a.len() && 0 <= w < a[l].weights.len() ==> (#[trigger] m[l].weights[w])
            == a[l].weights[w] || m[l].weights[w] == b[l].weights[w]
}

/// Exchanges the entire weight row of one node between two networks of
/// the same shape: inside the row each network ends up with the other's
/// weights, and every other slot of every layer is left as found.
pub fn swap_node_rows(a: &mut NeuralNetwork, b: &mut NeuralNetwork, layer: usize, node: usize)
    requires
        net_wf(old(a)@),
        net_wf(old(b)@),
        same_shape(old(a)@, old(b)@),
        layer < old(a)@.len(),
        node < old(a)@[layer as int].activations.len(),
    ensures
        same_shape(final(a)@, old(a)@),
        same_shape(final(b)@, old(b)@),
        forall|l: int|
            0 <= l < old(a)@.len() && l != layer ==> final(a)@[l] == old(a)@[l] && final(b)@[l]
                == old(b)@[l],
        final(a)@[layer as int].activations == old(a)@[layer as int].activations,
        final(b)@[layer as int].activations == old(b)@[layer as int].activations,
        forall|w: int|
            0 <= w < old(a)@[layer as int].weights.len() && in_node_row(
                old(a)@[layer as int].input_count,
                node as int,
                w,
            ) ==> final(a)@[layer as int].weights[w] == old(b)@[layer as int].weights[w]
                && final(b)@[layer as int].weights[w] == old(a)@[layer as int].weights[w],
        forall|w: int|
            0 <= w < old(a)@[layer as int].weights.len() && !in_node_row(
                old(a)@[layer as int].input_count,
                node as int,
                w,
            ) ==> final(a)@[layer as int].weights[w] == old(a)@[layer as int].weights[w]
                && final(b)@[layer as int].weights[w] == old(b)@[layer as int].weights[w],
{
    let row = a.layer_row_len(layer);
    let wcount = a.layer_weight_count(layer);
    proof {
        let n_count = old(a)@[layer as int].activations.len();
        assert(node * row + row <= wcount) by (nonlinear_arith)
            requires
                wcount == row * n_count,
                node + 1 <= n_count,
                row >= 0,
                node >= 0,
        ;
    }
    let base: usize = node * row;
    let mut k: usize = 0;
    while k < row
        invariant
            0 <= k <= row,
            base == node * row,
            base + row <= wcount,
            wcount == old(a)@[layer as int].weights.len(),
            a@.len() == old(a)@.len(),
            b@.len() == old(b)@.len(),
            same_shape(a@, old(a)@),
            same_shape(b@, old(b)@),
            forall|l: int|
                0 <= l < old(a)@.len() && l != layer ==> a@[l] == old(a)@[l] && b@[l] == old(b)@[l],
            a@[layer as int].activations == old(a)@[layer as int].activations,
            b@[layer as int].activations == old(b)@[layer as int].activations,
            a@[layer as int].input_count == old(a)@[layer as int].input_count,
            forall|w: int|
                base <= w < base + k ==> a@[layer as int].weights[w] == old(
                    b,
                )@[layer as int].weights[w] && b@[layer as int].weights[w] == old(
                    a,
                )@[layer as int].weights[w],
            forall|w: int|
                0 <= w < wcount && !(base <= w < base + k) ==> a@[layer as int].weights[w] == old(
                    a,
                )@[layer as int].weights[w] && b@[layer as int].weights[w] == old(
                    b,
                )@[layer as int].weights[w],
        decreases row - k,
    {
        let wa = a.get_weight(layer, base + k);
        let wb = b.get_weight(layer, base + k);
        a.set_weight(layer, base + k, wb);
        b.set_weight(layer, base + k, wa);
        k += 1;
    }
    proof {
        assert((node + 1) * row == node * row + row) by (nonlinear_arith);
    }
}

/// Draws a value in [lo, hi) when the bounds form a proper finite range;
/// a degenerate or unordered range yields the lower bound itself.
fn draw_or_low(rng: &mut rand::rngs::ThreadRng, lo: u64, hi: u64) -> (r: u64)
    ensures
        lt_bits(lo, hi) && crate::fbits::is_finite_bits(lo) && crate::fbits::is_finite_bits(hi)
            ==> le_bits(lo, r) && lt_bits(r, hi),
        !(lt_bits(lo, hi) && crate::fbits::is_finite_bits(lo) && crate::fbits::is_finite_bits(hi))
            ==> r == lo,
{
    if crate::fbits::exec_is_finite(lo) && crate::fbits::exec_is_finite(hi)
        && crate::fbits::exec_lt(lo, hi) {
        draw_between(rng, lo, hi)
    } else {
        lo
    }
}

/// Combines two parents into two offspring: both parents are cloned, and
/// a drawn number of times a random node of a random layer is crossed by
/// a drawn operator, either swapping the whole node row or a drawn
/// fraction of its slots. Every operation only exchanges same-slot
/// weights between the two clones, so each slot of the offspring pair
/// holds the two parent values of that slot: the first offspring keeps
/// the first parent's value exactly where the second keeps the second's.
/// Both offspring are handed to the collector, first the one derived
/// from the first parent, and the collector keeps them while room
/// remains.
pub fn crossover(
    rng: &mut rand::rngs::ThreadRng,
    a: &NeuralNetwork,
    b: &NeuralNetwork,
    output: &mut SpecimenWriter<NeuralNetwork>,
    settings: &mut CrossoverSettings,
)
    requires
        net_wf(a@),
        net_wf(b@),
        same_shape(a@, b@),
        old(settings).wf(),
        old(settings).buffer_fits(a@),
    ensures
        final(settings).wf(),
        final(settings).buffer_fits(a@),
        final(output).spec_limit() == old(output).spec_limit(),
        old(output).contents().len() + 2 <= old(output).spec_limit()
            ==> final(output).contents().len() == old(output).contents().len() + 2,
        old(output).contents().len() < old(output).spec_limit() < old(output).contents().len() + 2
            ==> final(output).contents().len() == old(output).spec_limit(),
        old(output).contents().len() >= old(output).spec_limit()
            ==> final(output).contents().len() == old(output).contents().len(),
        forall|i: int|
            0 <= i < old(output).contents().len()
                ==> final(output).contents()[i] == old(output).contents()[i],
        forall|i: int|
            old(output).contents().len() <= i < final(output).contents().len() ==> net_wf(
                #[trigger] final(output).contents()[i]@,
            ) && same_shape(final(output).contents()[i]@, a@),
        old(output).contents().len() + 2 <= old(output).spec_limit() ==> slots_exchanged(
            final(output).contents()[old(output).contents().len() as int]@,
            final(output).contents()[old(output).contents().len() as int + 1]@,
            a@,
            b@,
        ),
        old(output).contents().len() < old(output).spec_limit() ==> slots_from_parents(
            final(output).contents()[old(output).contents().len() as int]@,
            a@,
            b@,
        ),
{
    let mut x = a.duplicate();
    let mut y = b.duplicate();
    let count = settings.gen_nodes_affected(rng);
    let mut t: usize = 0;
    while t < count
        invariant
            0 <= t <= count,
            net_wf(x@),
            net_wf(y@),
            same_shape(x@, a@),
            same_shape(y@, b@),
            slots_exchanged(x@, y@, a@, b@),
            settings.wf(),
            settings.buffer_fits(a@),
        decreases count - t,
    {
        let layers = x.layer_count();
        let layer = rand_range_usize(rng, 0, layers);
        let nodes = x.layer_node_count(layer);
        let node = rand_range_usize(rng, 0, nodes);
        proof {
            lemma_same_shape_wf(y@, x@);
            assert(same_shape(y@, x@));
        }
        match settings.gen_method(rng) {
            CrossoverMethod::SwapWholeNode => {
                let ghost px = x@;
                let ghost py = y@;
                swap_node_rows(&mut x, &mut y, layer, node);
                proof {
                    lemma_same_shape_wf(x@, a@);
                    lemma_same_shape_wf(y@, b@);
                    assert forall|l: int, w: int|
                        0 <= l < a@.len() && 0 <= w < a@[l].weights.len() implies {
                        ||| (#[trigger] x@[l].weights[w]) == a@[l].weights[w] && y@[l].weights[w]
                            == b@[l].weights[w]
                        ||| x@[l].weights[w] == b@[l].weights[w] && y@[l].weights[w]
                            == a@[l].weights[w]
                    } by {
                        assert(px[l].weights.len() == a@[l].weights.len());
                        if l == layer {
                            if in_node_row(px[layer as int].input_count, node as int, w) {
                                assert(x@[l].weights[w] == py[l].weights[w]);
                                assert(y@[l].weights[w] == px[l].weights[w]);
                            } else {
                                assert(x@[l].weights[w] == px[l].weights[w]);
                                assert(y@[l].weights[w] == py[l].weights[w]);
                            }
                        } else {
                            assert(x@[l] == px[l] && y@[l] == py[l]);
                        }
                    }
                }
            },
            CrossoverMethod::SwapSomeWeights {
                min_weights_swapped_ratio: lo,
                max_weights_swapped_ratio: hi,
            } => {
                let row = x.layer_row_len(layer);
                let wcount = x.layer_weight_count(layer);
                proof {
                    crate::fbits::lemma_unit_constants();
                    assert(node * row + row <= wcount) by (nonlinear_arith)
                        requires
                            wcount == row * x@[layer as int].activations.len(),
                            node + 1 <= x@[layer as int].activations.len(),
                            row >= 0,
                            node >= 0,
                    ;
                }
                let fraction = draw_or_low(rng, lo, hi);
                proof {
                    if lt_bits(lo, hi) && crate::fbits::is_finite_bits(lo)
                        && crate::fbits::is_finite_bits(hi) {
                        assert(crate::fbits::ge_bits(fraction, POS_ZERO_BITS));
                        assert(crate::fbits::le_bits(fraction, ONE_BITS));
                    } else {
                        assert(fraction == lo);
                    }
                    assert(crate::fbits::valid_ratio_bits(fraction));
                }
                let row32: u32 = if row > 0x7FFF_FFFFusize {
                    0x7FFF_FFFF
                } else {
                    row as u32
                };
                let swap_count = crate::arith::scale_count(fraction, row32);
                proof {
                    assert(swap_count <= row32 as usize);
                    assert(row32 as usize <= row);
                    assert(swap_count <= row);
                    assert(x@[layer as int].input_count == a@[layer as int].input_count);
                    settings.lemma_buffer_fits(a@, layer as int);
                    assert(row <= settings.spec_buffer().len());
                    assert(wcount == y@[layer as int].weights.len());
                }
                settings.fill_distinct(rng, row, swap_count);
                let base: usize = node * row;
                let mut j: usize = 0;
                while j < swap_count
                    invariant
                        0 <= j <= swap_count,
                        swap_count <= row,
                        base == node * row,
                        base + row <= wcount,
                        wcount == x@[layer as int].weights.len(),
                        wcount == y@[layer as int].weights.len(),
                        layer < x@.len(),
                        settings.wf(),
                        settings.buffer_fits(a@),
                        swap_count <= settings.spec_buffer().len(),
                        forall|i: int|
                            0 <= i < swap_count ==> #[trigger] settings.spec_buffer()[i] < row,
                        net_wf(x@),
                        net_wf(y@),
                        same_shape(x@, a@),
                        same_shape(y@, b@),
                        slots_exchanged(x@, y@, a@, b@),
                    decreases swap_count - j,
                {
                    let w = settings.buffer_at(j);
                    let ghost px = x@;
                    let ghost py = y@;
                    let wa = x.get_weight(layer, base + w);
                    let wb = y.get_weight(layer, base + w);
                    x.set_weight(layer, base + w, wb);
                    y.set_weight(layer, base + w, wa);
                    proof {
                        lemma_same_shape_wf(x@, a@);
                        lemma_same_shape_wf(y@, b@);
                        assert forall|l: int, w2: int|
                            0 <= l < a@.len() && 0 <= w2 < a@[l].weights.len() implies {
                            ||| (#[trigger] x@[l].weights[w2]) == a@[l].weights[w2]
                                && y@[l].weights[w2] == b@[l].weights[w2]
                            ||| x@[l].weights[w2] == b@[l].weights[w2] && y@[l].weights[w2]
                                == a@[l].weights[w2]
                        } by {
                            if l == layer && w2 == base + w {
                                assert(x@[l].weights[w2] == py[l].weights[w2]);
                                assert(y@[l].weights[w2] == px[l].weights[w2]);
                            } else {
                                assert(x@[l].weights[w2] == px[l].weights[w2]);
                                assert(y@[l].weights[w2] == py[l].weights[w2]);
                            }
                        }
                    }
                    j += 1;
                }
            },
        }
        t += 1;
    }
    let ghost pre = output.contents();
    output.write(x);
    output.write(y);
    proof {
        assert forall|l: int, w: int|
            0 <= l < a@.len() && 0 <= w < a@[l].weights.len() implies (#[trigger] x@[l].weights[w])
            == a@[l].weights[w] || x@[l].weights[w] == b@[l].weights[w] by {
            assert(0 <= l < a@.len() && 0 <= w < a@[l].weights.len() ==> (x@[l].weights[w]
                == a@[l].weights[w] && y@[l].weights[w] == b@[l].weights[w]) || (x@[l].weights[w]
                == b@[l].weights[w] && y@[l].weights[w] == a@[l].weights[w]));
        }
        if pre.len() + 2 <= output.spec_limit() {
            assert(output.contents()[pre.len() as int] == x);
            assert(output.contents()[pre.len() as int + 1] == y);
        } else if pre.len() < output.spec_limit() {
            assert(output.contents()[pre.len() as int] == x);
        }
    }
}

/// Perturbs one network in place. First a uniform unit draw is compared
/// against the configured probability, once per individual: with a zero
/// probability the network is never altered. When the draw falls below
/// the probability, a drawn number of times a random weight of a random
/// layer is inverted, replaced, scaled or shifted.
pub fn mutate(
    rng: &mut rand::rngs::ThreadRng,
    nn: &mut NeuralNetwork,
    settings: &MutationSettings,
)
    requires
        net_wf(old(nn)@),
        settings.wf(),
    ensures
        net_wf(final(nn)@),
        same_shape(final(nn)@, old(nn)@),
        is_zero_bits(settings.spec_probability()) ==> final(nn)@ == old(nn)@,
{
    proof {
        crate::fbits::lemma_unit_constants();
    }
    let u = draw_between(rng, POS_ZERO_BITS, ONE_BITS);
    let p = settings.mutation_probability();
    proof {
        if is_zero_bits(p) {
            assert(p & 0x7FF0_0000_0000_0000u64 != 0x7FF0_0000_0000_0000u64) by (bit_vector)
                requires
                    p & 0x7FFF_FFFF_FFFF_FFFFu64 == 0u64,
            ;
            assert(!crate::fbits::is_nan_bits(p));
            assert(order_key(p) == SIGN_MASK);
            assert(crate::fbits::ge_bits(u, p));
        }
    }
    if crate::fbits::exec_ge(u, p) {
        return;
    }
    let k = settings.gen_weights_affected(rng);
    let mut t: usize = 0;
    while t < k
        invariant
            0 <= t <= k,
            net_wf(nn@),
            same_shape(nn@, old(nn)@),
        decreases k - t,
    {
        let layers = nn.layer_count();
        let layer = rand_range_usize(rng, 0, layers);
        let wcount = nn.layer_weight_count(layer);
        proof {
            assert(wcount >= 1) by (nonlinear_arith)
                requires
                    wcount == (nn@[layer as int].input_count + 1)
                        * nn@[layer as int].activations.len(),
                    nn@[layer as int].input_count >= 1,
                    nn@[layer as int].activations.len() >= 1,
            ;
        }
        let widx = rand_range_usize(rng, 0, wcount);
        let current = nn.get_weight(layer, widx);
        match settings.gen_method(rng) {
            MutationMethod::Invert => {
                // negating a double flips exactly its sign bit
                nn.set_weight(layer, widx, current ^ SIGN_MASK);
            },
            MutationMethod::Replace(lo, hi) => {
                let v = draw_or_low(rng, lo, hi);
                nn.set_weight(layer, widx, v);
            },
            MutationMethod::Scale(lo, hi) => {
                let f = draw_or_low(rng, lo, hi);
                nn.set_weight(layer, widx, mul_bits(current, f));
            },
            MutationMethod::Shift(lo, hi) => {
                let d = draw_or_low(rng, lo, hi);
                nn.set_weight(layer, widx, add_bits(current, d));
            },
        }
        proof {
            lemma_same_shape_wf(nn@, old(nn)@);
        }
        t += 1;
    }
}

} // verus!
