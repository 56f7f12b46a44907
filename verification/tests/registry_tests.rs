use cuckoo_worker::capability_tag;
use cuckoo_worker::registry::PluginCapability;
use cuckoo_worker::select_capability;
use cuckoo_worker::WorkerConfig;

fn cap(tag: &str, path: &str) -> PluginCapability {
    PluginCapability {
        tag: String::from(tag),
        path: String::from(path),
    }
}

#[test]
fn capability_tag_examples() {
    assert_eq!(capability_tag(16), "simple_16");
    assert_eq!(capability_tag(0), "simple_0");
    assert_eq!(capability_tag(7), "simple_7");
    assert_eq!(capability_tag(30), "simple_30");
    assert_eq!(capability_tag(u32::MAX), "simple_4294967295");
}

#[test]
fn selection_takes_first_match() {
    let caps = vec![
        cap("simple_30", "/a"),
        cap("simple_16", "/b"),
        cap("simple_16", "/c"),
    ];
    assert_eq!(select_capability(&caps, 16), Some(1));
    assert_eq!(select_capability(&caps, 30), Some(0));
}

#[test]
fn selection_requires_exact_tag() {
    let caps = vec![
        cap("simple_160", "/a"),
        cap("simple_1", "/b"),
        cap("SIMPLE_16", "/c"),
        cap("mean_16", "/d"),
    ];
    assert_eq!(select_capability(&caps, 16), None);
}

#[test]
fn selection_on_empty_enumeration() {
    let caps: Vec<PluginCapability> = Vec::new();
    assert_eq!(select_capability(&caps, 16), None);
}

#[test]
fn config_bridges_path_with_defaults() {
    let path = String::from("/x/deps/libsimple16");
    let config = WorkerConfig::from_capability(&path);
    assert_eq!(config.engine_path, "/x/deps/libsimple16");
    assert_eq!(config.thread_count, 4);
    assert_eq!(config.trim_rounds, 0);
}
