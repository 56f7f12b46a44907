//! The public-facing composite: one engine plus one solution buffer,
//! exposing `construct` and `mine`.

use vstd::prelude::*;
use crate::config::{DEFAULT_THREAD_COUNT, DEFAULT_TRIM_ROUNDS, WorkerConfig};
use crate::engine::{
    Engine, EngineOutcome, EngineSource, StubEngine, classify, stub_advanced, stub_next_outcome,
};
use crate::errors::Error;
use crate::host;
use crate::params::CycleParameters;
use crate::registry::{PluginCapability, first_match, lemma_first_match, select_capability};
use crate::solution::{Proof, SolutionBuffer, adapt, adapt_ok, adapted_error, outcome_nonces};

verus! {

/// A mining worker: the cycle parameters it was built for, the bridged
/// engine configuration, the one active engine, and the worker-held result
/// buffer. Exactly one `mine` call may be in flight per instance; the
/// buffer is single-owner scratch space.
pub struct PluginMiner {
    pub params: CycleParameters,
    pub config: WorkerConfig,
    pub engine: Engine,
    pub buffer: SolutionBuffer,
}

impl PluginMiner {
    /// The worker's buffer keeps the fixed cycle length throughout.
    pub open spec fn wf(self) -> bool {
        self.buffer.wf()
    }

    /// Resolves the capability implied by `params.sizeshift` among the
    /// installed ones the plugin host reported, bridges the selected
    /// capability into the engine configuration, and constructs the
    /// engine from the given source. Every failure is a distinct error,
    /// never an abort: no matching capability is `PluginNotFound`, and an
    /// injected load result that failed is `PluginLoadFailed`.
    pub fn construct(
        params: CycleParameters,
        capabilities: &Vec<PluginCapability>,
        source: EngineSource,
    ) -> (r: Result<PluginMiner, Error>)
        ensures
            (match first_match(capabilities@, params.sizeshift as nat) {
                Some(i) => match r {
                    Ok(w) => w.wf() && w.params == params && w.config.engine_path@
                        == capabilities@[i].path@ && w.config.thread_count == DEFAULT_THREAD_COUNT
                        && w.config.trim_rounds == DEFAULT_TRIM_ROUNDS && w.buffer.nonces@
                        == Seq::new(crate::params::CYCLE_LENGTH as nat, |k: int| 0u64) && (
                    source matches EngineSource::Stub(script) ==> (
                    w.engine matches Engine::Stub(st) && st.script == script && st.next == 0)) && (
                    source is PluginHost ==> w.engine is Plugin),
                    Err(e) => e == Error::PluginLoadFailed && (
                    source matches EngineSource::PluginHost(loaded) && loaded is Err),
                },
                None => r == Err::<PluginMiner, Error>(Error::PluginNotFound),
            }),
            (source is Stub && first_match(capabilities@, params.sizeshift as nat) is Some) ==> r
                is Ok,
            ((source matches EngineSource::PluginHost(loaded) && loaded is Ok) && first_match(
                capabilities@,
                params.sizeshift as nat,
            ) is Some) ==> r is Ok,
    {
        let selected = select_capability(capabilities, params.sizeshift);
        let i = match selected {
            Some(i) => i,
            None => {
                return Err(Error::PluginNotFound);
            },
        };
        proof {
            lemma_first_match(capabilities@, params.sizeshift as nat);
        }
        let config = WorkerConfig::from_capability(&capabilities[i].path);
        let engine = match source {
            EngineSource::Stub(script) => Engine::Stub(StubEngine::new(script)),
            EngineSource::PluginHost(loaded) => {
                match loaded {
                    Ok(lib) => {
                        let mut solver_params = host::default_params(&lib);
                        host::configure_params(
                            &mut solver_params,
                            config.thread_count,
                            config.trim_rounds,
                        );
                        Engine::Plugin { lib, params: solver_params }
                    },
                    Err(_) => {
                        return Err(Error::PluginLoadFailed);
                    },
                }
            },
        };
        Ok(PluginMiner { params, config, engine, buffer: SolutionBuffer::new() })
    }

    /// Runs the engine synchronously on `header`, overwrites the buffer
    /// with a successful result and copies it out into a fresh proof.
    /// Exhaustion is `NoSolution` and an engine fault is
    /// `EngineInvocationFailed`; both are per-call outcomes, never a
    /// construction error. For the stub engine the result is exactly the
    /// next scripted outcome.
    pub fn mine(&mut self, header: &[u8]) -> (r: Result<Proof, Error>)
        requires
            old(self).wf(),
        ensures
            final(self).wf(),
            final(self).params == old(self).params,
            final(self).config == old(self).config,
            (match r {
                Ok(p) => p.wf() && final(self).buffer.nonces@ == p.nonces@,
                Err(e) => (e == Error::NoSolution || e == Error::EngineInvocationFailed)
                    && final(self).buffer == old(self).buffer,
            }),
            (old(self).engine matches Engine::Stub(st) ==> ({
                let outcome = stub_next_outcome(st);
                &&& (final(self).engine matches Engine::Stub(st2) && st2.script == st.script
                    && st2.next == stub_advanced(st))
                &&& (adapt_ok(outcome) ==> (r matches Ok(p) && p.nonces@ == outcome_nonces(
                    outcome,
                )))
                &&& (!adapt_ok(outcome) ==> r == Err::<Proof, Error>(adapted_error(outcome)))
            })),
            old(self).engine is Plugin ==> final(self).engine is Plugin,
    {
        match &mut self.engine {
            Engine::Stub(st) => {
                let i = st.next;
                if i < st.script.len() {
                    st.next = i + 1;
                    adapt(&st.script[i], &mut self.buffer)
                } else {
                    let exhausted = EngineOutcome::NotFound;
                    adapt(&exhausted, &mut self.buffer)
                }
            },
            Engine::Plugin { lib, params } => {
                let (sols, errored) = host::run_solver_once(lib, params, header);
                let count = host::solution_count(&sols);
                let nonces = host::first_solution_nonces(&sols);
                let outcome = classify(errored, count, nonces);
                adapt(&outcome, &mut self.buffer)
            },
        }
    }
}

} // verus!
