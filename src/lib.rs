//! A small artificial neuron model: activation functions, neurons wired
//! through a table of shared signal cells, and delta-rule training.
//!
//! Scalars are fixed-point numbers held in `i64`, counted in millionths
//! and saturating at a fixed range (see `fixed`).
pub mod activation;
pub mod fixed;
pub mod neuron;
pub mod training;
