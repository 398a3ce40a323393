//! A generational genetic algorithm over fixed-topology feed-forward
//! neural networks.
//!
//! The crate evolves a population of networks toward higher externally
//! supplied fitness scores with selection, crossover, mutation and elitism
//! instead of gradient descent. Every double-precision quantity (weights,
//! fitness scores, ratios, probabilities) is carried as the 64-bit pattern
//! of the value it encodes, so that all structural and ordering logic is
//! verified integer logic; the few genuine double operations go through a
//! small set of trusted primitives.

#![verifier::loop_isolation(false)]

pub mod arith;
pub mod config;
pub mod crossover_settings;
pub mod error;
pub mod fbits;
pub mod gen;
pub mod mutation_settings;
pub mod nn;
pub mod ops;
pub mod population;
pub mod rng;
pub mod sampler;

