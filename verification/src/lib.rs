//! Measurement harness for the execution-time overhead of gas metering in a
//! WebAssembly virtual machine.
//!
//! The crate generates a synthetic contract of tunable nesting depth, and
//! drives a differential measurement: the same contract is executed under a
//! gas-metered configuration and under a gas-free one, each batch bracketed
//! by a metric sample, and the two totals are subtracted.  The virtual
//! machine itself, the compiled-code cache and the sampling backends are
//! external collaborators: the estimator core here decides, step by step,
//! which call to make next, and a thin driver outside the crate performs the
//! calls and feeds the outcomes back.

pub mod config;
pub mod estimator;
pub mod generator;
pub mod text;
