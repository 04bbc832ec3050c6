[package]
name = "dan_hotstuff"
version = "0.1.0"
edition = "2021"
publish = false

[dependencies]
tari_crypto = "=0.24.0"
tari_utilities = "=0.10.0"
blake2 = "=0.10.6"
digest = "=0.10.7"
rand = "=0.10.3"
tokio = { version = "=1.53.2", features = ["rt", "rt-multi-thread", "sync", "time", "macros"] }
