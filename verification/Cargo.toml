[package]
name = "rollup_core"
version = "0.1.0"
edition = "2021"
publish = false

[dependencies]
parity-crypto = "0.9"
num = "0.4"
hex = "0.4"
serde = { version = "1", features = ["derive"] }
thiserror = "1"
chrono = "0.4"
tokio = { version = "1", features = ["rt", "rt-multi-thread", "sync", "macros"] }
futures = "0.3"
