[package]
name = "cuckoo_worker"
version = "0.1.0"
edition = "2021"
publish = false

[dependencies]
cuckoo_miner = { version = "=0.5.2", features = ["no-plugin-build"] }
grin_miner_plugin = "=0.5.2"
slog-async = ">=2.1, <2.4"
slog-term = ">=2.1, <2.4"
