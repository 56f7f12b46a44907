//! The bridge between consensus parameters, the selected capability, and
//! the configuration shape an engine constructor expects.

use vstd::prelude::*;

verus! {

/// Worker threads the engine is asked for unless a broader node
/// configuration overrides it; this layer reads no external config itself.
pub const DEFAULT_THREAD_COUNT: u32 = 4;

/// Zero tells the engine to choose its own trimming schedule; this layer
/// never second-guesses the engine's internal search strategy.
pub const DEFAULT_TRIM_ROUNDS: u32 = 0;

/// Built once per worker from the selected capability; immutable after the
/// engine is constructed.
#[derive(Debug)]
pub struct WorkerConfig {
    pub engine_path: String,
    pub thread_count: u32,
    pub trim_rounds: u32,
}

impl WorkerConfig {
    /// Bridges the selected capability's load path into an engine
    /// configuration with the default thread count and an engine-chosen
    /// trimming schedule.
    pub fn from_capability(path: &String) -> (r: WorkerConfig)
        ensures
            r.engine_path@ == path@,
            r.thread_count == DEFAULT_THREAD_COUNT,
            r.trim_rounds == DEFAULT_TRIM_ROUNDS,
    {
        WorkerConfig {
            engine_path: path.clone(),
            thread_count: DEFAULT_THREAD_COUNT,
            trim_rounds: DEFAULT_TRIM_ROUNDS,
        }
    }
}

} // verus!
