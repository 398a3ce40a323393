//! Weighted sampling of indices, proportional to relative weights.
//!
//! The sampler is an alias-method table: rand's
//! `distributions::weighted::alias_method::WeightedIndex` built once in
//! O(n) from the weights, drawing an index in O(1). The table is a value
//! of the outside crate over doubles, so it lives in an opaque field; the
//! verified code sees only its length and the acceptance condition.

use vstd::prelude::*;

verus! {

/// An alias-method table of rand, kept behind an opaque field. The stored
/// closure owns the table and draws one index from it.
#[verifier::external_body]
pub struct AliasTable {
    draw: Box<dyn Fn(&mut rand::rngs::ThreadRng) -> usize>,
}

/// Names the number of weights an alias table was built from.
pub uninterp spec fn table_len(t: AliasTable) -> nat;

/// Names the acceptance condition of rand's alias-method constructor: the
/// weight sequence is non-empty and no longer than u32::MAX, every weight
/// encodes a finite value between zero and its documented cap, and the
/// weights do not sum to zero.
pub uninterp spec fn alias_accepts(weights: Seq<u64>) -> bool;

/// Relies on rand's WeightedIndex::new of the alias method: it returns Ok
/// exactly under the documented acceptance condition named by
/// `alias_accepts`, and an empty weight sequence is always refused.
#[verifier::external_body]
fn alias_table_new(weights: &Vec<u64>) -> (r: Option<AliasTable>)
    ensures
        r is Some <==> alias_accepts(weights@),
        weights@.len() == 0 ==> r is None,
        r matches Some(t) ==> table_len(t) == weights@.len(),
{
    let ws: Vec<_> = weights
        .iter()
        .map(|&b| libm::copysign(bytemuck::cast(b), bytemuck::cast(b)))
        .collect();
    match rand::distributions::weighted::alias_method::WeightedIndex::new(ws) {
        Ok(table) => Some(AliasTable {
            draw: Box::new(move |rng: &mut rand::rngs::ThreadRng| {
                rand::distributions::Distribution::sample(&table, rng)
            }),
        }),
        Err(_) => None,
    }
}

/// Relies on rand's WeightedIndex sampling: the drawn value is an index of
/// the weight vector the table was built from.
#[verifier::external_body]
fn alias_table_sample(t: &AliasTable, rng: &mut rand::rngs::ThreadRng) -> (r: usize)
    ensures
        r < table_len(*t),
{
    (t.draw)(rng)
}

/// A discrete sampler over non-negative relative weights given as bit
/// patterns: index i is drawn with probability weight[i] / sum of weights.
pub struct WeightedSampler {
    len: usize,
    table: AliasTable,
}

impl WeightedSampler {
    /// The number of weights the sampler was built from.
    pub closed spec fn spec_len(&self) -> nat {
        self.len as nat
    }

    /// The stored length matches the table and the sampler is non-empty.
    pub closed spec fn wf(&self) -> bool {
        self.len as nat == table_len(self.table) && self.len > 0
    }

    /// Builds the sampler, failing exactly when rand's alias-method
    /// constructor refuses the weights.
    pub fn new(weights: &Vec<u64>) -> (r: Option<WeightedSampler>)
        ensures
            r is Some <==> alias_accepts(weights@),
            r matches Some(s) ==> s.wf() && s.spec_len() == weights@.len(),
    {
        match alias_table_new(weights) {
            Some(table) => Some(WeightedSampler { len: weights.len(), table }),
            None => None,
        }
    }

    /// Draws one index, always below the number of weights.
    pub fn sample(&self, rng: &mut rand::rngs::ThreadRng) -> (r: usize)
        requires
            self.wf(),
        ensures
            r < self.spec_len(),
    {
        alias_table_sample(&self.table, rng)
    }

    /// The number of weights the sampler was built from.
    pub fn len(&self) -> (r: usize)
        ensures
            r == self.spec_len(),
    {
        self.len
    }
}

} // verus!
