[package]
name = "regtest_harness"
version = "0.1.0"
edition = "2021"
publish = false

[dependencies]
anyhow = "1"
bitcoincore-rpc = "*"
chrono = "0.4"
cln-rpc = "*"
petgraph = "*"
serde = { version = "1", features = ["derive"] }
serde_json = "1"
tokio = { version = "1", features = ["macros", "rt-multi-thread", "time"] }
tracing-subscriber = "*"
