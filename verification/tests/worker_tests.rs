use cuckoo_worker::engine::EngineOutcome;
use cuckoo_worker::engine::EngineSource;
use cuckoo_worker::errors::Error;
use cuckoo_worker::params::CycleParameters;
use cuckoo_worker::registry::PluginCapability;
use cuckoo_worker::worker::PluginMiner;
use cuckoo_worker::CYCLE_LENGTH;

fn cap(tag: &str, path: &str) -> PluginCapability {
    PluginCapability {
        tag: String::from(tag),
        path: String::from(path),
    }
}

/// The fixed 42-nonce cycle the scenarios use: 3, 17, 22, then ascending.
fn fixed_cycle() -> Vec<u64> {
    let mut v = vec![3u64, 17, 22];
    let mut n = 30u64;
    while v.len() < CYCLE_LENGTH {
        v.push(n);
        n += 5;
    }
    v
}

fn other_cycle() -> Vec<u64> {
    let mut v = Vec::new();
    let mut n = 1000u64;
    while v.len() < CYCLE_LENGTH {
        v.push(n);
        n += 7;
    }
    v
}

#[test]
fn construct_succeeds_with_matching_capability() {
    let caps = vec![
        cap("simple_30", "/deps/libsimple30"),
        cap("simple_16", "/deps/libsimple16_a"),
        cap("simple_16", "/deps/libsimple16_b"),
    ];
    let params = CycleParameters::new(50, 16);
    let worker = PluginMiner::construct(params, &caps, EngineSource::Stub(Vec::new()))
        .expect("a matching capability must yield a worker");
    // the first reported match wins
    assert_eq!(worker.config.engine_path, "/deps/libsimple16_a");
    assert_eq!(worker.config.thread_count, 4);
    assert_eq!(worker.config.trim_rounds, 0);
    assert_eq!(worker.params.ease, 50);
    assert_eq!(worker.params.sizeshift, 16);
}

#[test]
fn construct_reports_plugin_not_found() {
    let caps = vec![
        cap("simple_30", "/deps/libsimple30"),
        cap("mean_16", "/deps/libmean16"),
    ];
    let params = CycleParameters::new(50, 16);
    let r = PluginMiner::construct(params, &caps, EngineSource::Stub(Vec::new()));
    assert!(matches!(r, Err(Error::PluginNotFound)));
}

#[test]
fn construct_reports_plugin_not_found_when_nothing_installed() {
    let caps: Vec<PluginCapability> = Vec::new();
    let params = CycleParameters::new(50, 16);
    let r = PluginMiner::construct(params, &caps, EngineSource::Stub(Vec::new()));
    assert!(matches!(r, Err(Error::PluginNotFound)));
}

#[test]
fn construct_reports_plugin_load_failed() {
    let caps = vec![cap("simple_16", "/nonexistent/libsimple16.so")];
    let params = CycleParameters::new(50, 16);
    // the edge performs the load and injects whatever came back
    let loaded = cuckoo_miner::PluginLibrary::new("/nonexistent/libsimple16.so");
    assert!(loaded.is_err());
    let r = PluginMiner::construct(params, &caps, EngineSource::PluginHost(loaded));
    assert!(matches!(r, Err(Error::PluginLoadFailed)));
}

#[test]
fn failed_injected_load_never_outranks_discovery() {
    // with no matching capability the load result is irrelevant:
    // discovery failure is reported, not load failure
    let caps = vec![cap("simple_30", "/deps/libsimple30")];
    let params = CycleParameters::new(50, 16);
    let loaded = cuckoo_miner::PluginLibrary::new("/nonexistent/libsimple16.so");
    let r = PluginMiner::construct(params, &caps, EngineSource::PluginHost(loaded));
    assert!(matches!(r, Err(Error::PluginNotFound)));
}

#[test]
fn buffer_starts_zeroed_with_cycle_length() {
    let caps = vec![cap("simple_16", "/deps/libsimple16")];
    let params = CycleParameters::new(50, 16);
    let worker = PluginMiner::construct(params, &caps, EngineSource::Stub(Vec::new())).unwrap();
    assert_eq!(worker.buffer.nonces, vec![0u64; CYCLE_LENGTH]);
}

#[test]
fn mine_reports_no_solution_from_stub() {
    let caps = vec![cap("simple_16", "/deps/libsimple16")];
    let params = CycleParameters::new(50, 16);
    let script = vec![EngineOutcome::NotFound];
    let mut worker = PluginMiner::construct(params, &caps, EngineSource::Stub(script)).unwrap();
    let r = worker.mine(&[0u8; 80]);
    assert!(matches!(r, Err(Error::NoSolution)));
}

#[test]
fn mine_copies_found_cycle_into_proof() {
    let caps = vec![cap("simple_16", "/deps/libsimple16")];
    let params = CycleParameters::new(50, 16);
    let script = vec![EngineOutcome::Found(fixed_cycle())];
    let mut worker = PluginMiner::construct(params, &caps, EngineSource::Stub(script)).unwrap();
    let proof = worker.mine(&[0u8; 80]).expect("scripted cycle must yield a proof");
    assert_eq!(proof.nonces.len(), CYCLE_LENGTH);
    assert_eq!(proof.nonces[0], 3);
    assert_eq!(proof.nonces[1], 17);
    assert_eq!(proof.nonces[2], 22);
    assert_eq!(proof.nonces, fixed_cycle());
}

#[test]
fn earlier_proof_survives_later_no_solution() {
    let caps = vec![cap("simple_16", "/deps/libsimple16")];
    let params = CycleParameters::new(50, 16);
    let script = vec![
        EngineOutcome::Found(fixed_cycle()),
        EngineOutcome::NotFound,
    ];
    let mut worker = PluginMiner::construct(params, &caps, EngineSource::Stub(script)).unwrap();
    let proof = worker.mine(&[1u8; 80]).unwrap();
    let r = worker.mine(&[2u8; 80]);
    assert!(matches!(r, Err(Error::NoSolution)));
    // the earlier proof is an independent copy, bit-identical after the miss
    assert_eq!(proof.nonces, fixed_cycle());
}

#[test]
fn sequential_mines_yield_independent_latest_proofs() {
    let caps = vec![cap("simple_16", "/deps/libsimple16")];
    let params = CycleParameters::new(50, 16);
    let script = vec![
        EngineOutcome::Found(fixed_cycle()),
        EngineOutcome::Found(other_cycle()),
    ];
    let mut worker = PluginMiner::construct(params, &caps, EngineSource::Stub(script)).unwrap();
    let first = worker.mine(&[1u8; 80]).unwrap();
    let second = worker.mine(&[2u8; 80]).unwrap();
    // each proof reflects only the call it came from; the first is unchanged
    assert_eq!(first.nonces, fixed_cycle());
    assert_eq!(second.nonces, other_cycle());
    // the buffer was overwritten, not accumulated
    assert_eq!(worker.buffer.nonces, other_cycle());
}

#[test]
fn stub_fault_maps_to_engine_invocation_failed() {
    let caps = vec![cap("simple_16", "/deps/libsimple16")];
    let params = CycleParameters::new(50, 16);
    let script = vec![EngineOutcome::Fault];
    let mut worker = PluginMiner::construct(params, &caps, EngineSource::Stub(script)).unwrap();
    let r = worker.mine(&[0u8; 80]);
    assert!(matches!(r, Err(Error::EngineInvocationFailed)));
}

#[test]
fn wrong_length_cycle_is_an_engine_fault() {
    let caps = vec![cap("simple_16", "/deps/libsimple16")];
    let params = CycleParameters::new(50, 16);
    let script = vec![EngineOutcome::Found(vec![3u64, 17, 22])];
    let mut worker = PluginMiner::construct(params, &caps, EngineSource::Stub(script)).unwrap();
    let r = worker.mine(&[0u8; 80]);
    assert!(matches!(r, Err(Error::EngineInvocationFailed)));
    // the malformed result never reaches the buffer
    assert_eq!(worker.buffer.nonces, vec![0u64; CYCLE_LENGTH]);
}

#[test]
fn exhausted_stub_reports_no_solution() {
    let caps = vec![cap("simple_16", "/deps/libsimple16")];
    let params = CycleParameters::new(50, 16);
    let mut worker =
        PluginMiner::construct(params, &caps, EngineSource::Stub(Vec::new())).unwrap();
    let r = worker.mine(&[0u8; 80]);
    assert!(matches!(r, Err(Error::NoSolution)));
}

#[test]
fn example_scenario() {
    let caps = vec![cap("simple_16", "/x/deps/libsimple16")];
    let params = CycleParameters::new(50, 16);
    let script = vec![EngineOutcome::Found(fixed_cycle())];
    let mut worker = PluginMiner::construct(params, &caps, EngineSource::Stub(script))
        .expect("construct must succeed for the installed capability");
    assert_eq!(worker.config.engine_path, "/x/deps/libsimple16");
    let proof = worker.mine(&[0u8; 80]).expect("the stubbed cycle must come back");
    assert_eq!(proof.nonces, fixed_cycle());
    assert_eq!(proof.nonces.len(), 42);
}
