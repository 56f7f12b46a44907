//! Pluggable proof-of-work mining worker for a Cuckoo-Cycle-based chain.
//!
//! A worker selects, at construction time, one cycle-finding engine among
//! the installed capabilities the plugin host reports, bridges the
//! consensus parameters into the engine's configuration, and adapts each
//! raw search result into a canonical proof value or a tagged error.

pub mod config;
pub mod engine;
pub mod errors;
pub mod host;
pub mod params;
pub mod registry;
pub mod solution;
pub mod worker;

pub use config::DEFAULT_THREAD_COUNT;
pub use config::DEFAULT_TRIM_ROUNDS;
pub use config::WorkerConfig;
pub use engine::Engine;
pub use engine::EngineOutcome;
pub use engine::EngineSource;
pub use engine::StubEngine;
pub use errors::Error;
pub use params::CYCLE_LENGTH;
pub use params::CycleParameters;
pub use params::capability_tag;
pub use registry::PluginCapability;
pub use registry::select_capability;
pub use solution::Proof;
pub use solution::SolutionBuffer;
pub use worker::PluginMiner;
