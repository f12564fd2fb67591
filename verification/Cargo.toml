[package]
name = "fcheck"
version = "0.3.0"
edition = "2021"
publish = false

[dependencies]
subprocess = "=0.2.15"
toml = "=0.4.10"
serde = { version = "=1.0.229", features = ["derive"] }
serde_json = "=1.0.151"
clap = "=2.34.0"
