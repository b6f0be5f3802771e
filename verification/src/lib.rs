//! The part of a proving benchmark that is the same for every backend: how a
//! fixture is built, how the state and the batch header reach a guest
//! program, how the committed output comes back, and in which order the
//! steps of a run may happen.

pub mod backend;
pub mod codec;
pub mod error;
pub mod fixture;
pub mod input;
pub mod little_endian;
pub mod output;
pub mod runner;
pub mod stdin;
pub mod word_reveal;

pub use crate::input::{prepare_benchmark_input, BenchmarkInput};
pub use crate::output::ProofOutput;
pub use crate::runner::Runner;
