[package]
name = "interoperability_tests_sv2"
version = "0.1.0"
edition = "2021"
publish = false

[dependencies]
stratum-apps = "*"
async-channel = "*"
tokio = { version = "1", features = ["full"] }
clap = { version = "4", features = ["derive"] }
colored = "*"
serde = { version = "1", features = ["derive"] }
toml = "*"
