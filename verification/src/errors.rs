//! The error taxonomy of the worker layer.

use vstd::prelude::*;

verus! {

/// Every fallible step of the worker reports one of these tagged values;
/// no step aborts the process.
///
/// `NoSolution` is the expected negative outcome of a proof-of-work search,
/// not a fault. `PluginNotFound` means the discovery filter matched nothing,
/// `PluginLoadFailed` that a matched plugin could not be initialised, and
/// `EngineInvocationFailed` that the engine reported an internal fault
/// distinct from "no solution".
#[derive(Clone, Copy, Debug, PartialEq, Eq, Structural)]
pub enum Error {
    NoSolution,
    PluginNotFound,
    PluginLoadFailed,
    EngineInvocationFailed,
}

} // verus!
