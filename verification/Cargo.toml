[package]
name = "distributed-topic-tracker"
version = "0.3.0"
edition = "2021"
publish = false

[dependencies]
sha2 = "=0.11.1"
ed25519-dalek = { version = "=3.0.0", features = ["rand_core"] }
ed25519-dalek-hpke = "=0.0.5"
rand = "=0.9.5"
chrono = "=0.4.45"
anyhow = "=1.0.104"
tracing = "=0.1.44"
serde = { version = "=1.0.229", features = ["derive"] }
tokio = { version = "=1.54.1", features = ["rt-multi-thread", "macros", "sync", "time"] }
tokio-util = "=0.7.20"
futures-lite = "=2.6.1"
actor-helper = { version = "=0.3.0", features = ["tokio", "anyhow"] }
mainline = "=8.0.1"
