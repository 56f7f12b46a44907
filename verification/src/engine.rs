//! The capability abstraction over the selected cycle-finding
//! implementation, and the classification of a raw search result into the
//! three outcomes the worker distinguishes.

use vstd::prelude::*;

verus! {

/// The three cases an engine's search attempt maps to at this layer:
/// a cycle was found (its nonces, in the order the engine produced them),
/// the search space was exhausted without a cycle, or the engine reported
/// an internal fault distinct from "no solution".
pub enum EngineOutcome {
    Found(Vec<u64>),
    NotFound,
    Fault,
}

/// A deterministic test engine: it replays a scripted outcome per call,
/// front to back, and reports no cycle once the script is exhausted.
pub struct StubEngine {
    pub script: Vec<EngineOutcome>,
    pub next: usize,
}

/// The outcome the stub will report on its next call.
pub open spec fn stub_next_outcome(st: StubEngine) -> EngineOutcome {
    if st.next < st.script@.len() {
        st.script@[st.next as int]
    } else {
        EngineOutcome::NotFound
    }
}

/// The stub's script position after one call.
pub open spec fn stub_advanced(st: StubEngine) -> int {
    if st.next < st.script@.len() {
        st.next + 1
    } else {
        st.next as int
    }
}

impl StubEngine {
    pub fn new(script: Vec<EngineOutcome>) -> (r: StubEngine)
        ensures
            r.script == script,
            r.next == 0,
    {
        StubEngine { script, next: 0 }
    }
}

/// The selected cycle-finding implementation. Exactly one engine is active
/// per worker instance; it lives as long as the worker.
pub enum Engine {
    /// The deterministic test stub.
    Stub(StubEngine),
    /// A plugin-backed engine: a shared library the plugin host loaded,
    /// with the solver parameters it will be run under.
    Plugin { lib: cuckoo_miner::PluginLibrary, params: grin_miner_plugin::SolverParams },
}

/// Where `construct` obtains the worker's engine: a scripted stub handed in
/// by the caller, or the plugin host's load result for the selected
/// capability. The load itself is fallible edge work (it may even abort on
/// a malformed library), so the caller performs it and injects what came
/// back; `construct` maps a failed load to `PluginLoadFailed`.
pub enum EngineSource {
    Stub(Vec<EngineOutcome>),
    PluginHost(Result<cuckoo_miner::PluginLibrary, cuckoo_miner::CuckooMinerError>),
}

/// Maps a raw plugin search result, already reduced to plain values, onto
/// the three engine outcomes: a reported internal fault wins, then an empty
/// result means no solution, and otherwise the first solution's nonces
/// stand.
pub fn classify(errored: bool, count: u32, nonces: Vec<u64>) -> (r: EngineOutcome)
    ensures
        errored ==> r is Fault,
        !errored && count == 0 ==> r is NotFound,
        !errored && count != 0 ==> (r matches EngineOutcome::Found(n) && n == nonces),
{
    if errored {
        EngineOutcome::Fault
    } else if count == 0 {
        EngineOutcome::NotFound
    } else {
        EngineOutcome::Found(nonces)
    }
}

} // verus!
