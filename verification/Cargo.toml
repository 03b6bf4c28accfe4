[package]
name = "nilla_core"
version = "0.1.0"
edition = "2021"
publish = false

[dependencies]
serde_json = "=1.0.151"
serde = { version = "=1.0.229", features = ["derive"] }
tokio = { version = "=1.53.2", features = ["process", "rt-multi-thread", "macros"] }
anyhow = "=1.0.104"
log = "=0.4.34"
colored = "=3.1.1"
prettytable-rs = "=0.10.0"
cargo-util = "=0.1.2"
