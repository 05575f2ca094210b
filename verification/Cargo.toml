[package]
name = "alpaca_wire"
version = "0.1.0"
edition = "2021"
publish = false

[dependencies]
serde_json = "=1.0.151"
reqwest = { version = "=0.13.5", default-features = false }
reqwest-middleware = { version = "=0.5.2", features = ["query"] }
reqwest-retry = "=0.9.1"
reqwest-tracing = "=0.7.1"
