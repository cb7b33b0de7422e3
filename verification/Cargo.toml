[package]
name = "hiero_runtime"
version = "0.1.0"
edition = "2021"
publish = false

[dependencies]
serde = { version = "1", features = ["derive"] }
serde_json = "1"
reqwest = { version = "0.12", default-features = false, features = ["json", "rustls-tls"] }
tokio = { version = "1", features = ["time", "sync", "macros", "rt-multi-thread"] }
async-trait = "0.1"
time = "0.3"
hiero-sdk = "*"
napi = { version = "2", features = ["async", "serde-json"] }
napi-derive = "2"
