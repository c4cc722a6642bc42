//! The closed set of measurement backends, engine kinds, and the two
//! execution configurations the differential measurement compares.

use vstd::prelude::*;

verus! {

/// Which backend the metric samples come from: wall-clock time in
/// nanoseconds, or a retired-instruction count supplied by an external
/// counting environment.
#[derive(Clone, Copy, Debug, PartialEq, Eq, Structural)]
pub enum GasMetric {
    Time,
    ICount,
}

/// Which virtual-machine engine executes the contract.
#[derive(Clone, Copy, Debug, PartialEq, Eq, Structural)]
pub enum VMKind {
    Wasmer0,
    Wasmtime,
}

/// An execution configuration: the same fee schedule under both variants,
/// differing in exactly one flag — whether gas accounting is enabled.
#[derive(Clone, Copy, Debug, PartialEq, Eq, Structural)]
pub struct ExecutionConfig {
    pub metering_enabled: bool,
}

impl ExecutionConfig {
    /// The standard configuration, with gas accounting enabled.
    pub fn metered() -> (c: ExecutionConfig)
        ensures
            c.metering_enabled,
    {
        ExecutionConfig { metering_enabled: true }
    }

    /// The gas-free configuration: identical semantics, accounting disabled.
    pub fn free() -> (c: ExecutionConfig)
        ensures
            !c.metering_enabled,
    {
        ExecutionConfig { metering_enabled: false }
    }
}

/// The name of the one exported entrypoint of every synthetic contract.
pub open spec fn entry_point_name() -> Seq<char> {
    "hello"@
}

/// The entrypoint handed to the engine for every call.
pub fn entry_point() -> (s: &'static str)
    ensures
        s@ == entry_point_name(),
{
    "hello"
}

} // verus!
