//! The trusted boundary to the plugin host: configuring a loaded
//! cycle-finding plugin and running one synchronous search attempt through
//! it. The load itself stays at the edge — its result is injected into
//! `construct` — because a malformed library can abort it outright.
//!
//! Everything below an engine's capability descriptor is opaque to this
//! layer: what a search attempt finds depends on the shared library that was
//! loaded from disk, so none of these items promises anything about a search
//! outcome beyond its shape.

use vstd::prelude::*;
use crate::params::CYCLE_LENGTH;

verus! {

/// A loaded cycle-finding plugin, with its solver entry points resolved.
#[verifier::external_type_specification]
#[verifier::external_body]
pub struct ExPluginLibrary(cuckoo_miner::PluginLibrary);

/// The error the plugin host reports when a library cannot be initialised.
#[verifier::external_type_specification]
#[verifier::external_body]
pub struct ExCuckooMinerError(cuckoo_miner::CuckooMinerError);

/// The parameter block an engine's solver is constructed with.
#[verifier::external_type_specification]
#[verifier::external_body]
pub struct ExSolverParams(grin_miner_plugin::SolverParams);

/// The raw result block a search attempt fills in.
#[verifier::external_type_specification]
#[verifier::external_body]
pub struct ExSolverSolutions(grin_miner_plugin::SolverSolutions);

/// Relies on `cuckoo_miner::PluginLibrary::get_default_params`, which asks
/// the loaded plugin for its default solver parameters; their content is the
/// plugin's to choose.
#[verifier::external_body]
pub(crate) fn default_params(lib: &cuckoo_miner::PluginLibrary) -> grin_miner_plugin::SolverParams {
    lib.get_default_params()
}

/// Relies on the public `nthreads` and `ntrims` fields of
/// `grin_miner_plugin::SolverParams`: the two knobs this layer bridges from
/// the worker configuration (a trim count of 0 leaves the schedule to the
/// plugin).
#[verifier::external_body]
pub(crate) fn configure_params(
    params: &mut grin_miner_plugin::SolverParams,
    nthreads: u32,
    ntrims: u32,
) {
    params.nthreads = nthreads;
    params.ntrims = ntrims;
}

/// Relies on `cuckoo_miner::PluginLibrary::create_solver_ctx`, `run_solver`
/// and `destroy_solver_ctx`, bracketed into one synchronous search attempt
/// on `header` (the context they share is a raw handle that cannot outlive
/// the bracket). The attempt's findings are the plugin's own, so only their
/// shape is spoken of: the result block and whether the plugin reported an
/// internal fault.
#[verifier::external_body]
pub(crate) fn run_solver_once(
    lib: &cuckoo_miner::PluginLibrary,
    params: &mut grin_miner_plugin::SolverParams,
    header: &[u8],
) -> (r: (grin_miner_plugin::SolverSolutions, bool)) {
    let mut sols = grin_miner_plugin::SolverSolutions::default();
    let mut stats = grin_miner_plugin::SolverStats::default();
    let ctx = lib.create_solver_ctx(params);
    lib.run_solver(ctx, header.to_vec(), 0, 1, &mut sols, &mut stats);
    lib.destroy_solver_ctx(ctx);
    (sols, stats.has_errored)
}

/// Relies on the public `num_sols` field of
/// `grin_miner_plugin::SolverSolutions`: how many cycles the last search
/// attempt reported.
#[verifier::external_body]
pub(crate) fn solution_count(sols: &grin_miner_plugin::SolverSolutions) -> u32 {
    sols.num_sols
}

/// Relies on `grin_miner_plugin::Solution::to_u64s`, which returns the
/// proof nonces of a solution in order; its source always yields exactly
/// `PROOFSIZE` (42) of them.
#[verifier::external_body]
pub(crate) fn first_solution_nonces(sols: &grin_miner_plugin::SolverSolutions) -> (r: Vec<u64>)
    ensures
        r@.len() == CYCLE_LENGTH,
{
    sols.sols[0].to_u64s()
}

} // verus!
