[package]
name = "nodal"
version = "0.1.1"
edition = "2021"
publish = false

[dependencies]
ulid = "=1.2.1"
syn = { version = "=2.0.119", features = ["full"] }
quote = "=1.0.47"
proc-macro2 = "=1.0.107"
async-nats = "=0.51.0"
tokio = { version = "=1.54.1", features = ["rt-multi-thread", "macros", "sync", "time"] }
futures = "=0.3.34"
async-trait = "=0.1.92"
bytes = "=1.12.1"
serde = { version = "=1.0.229", features = ["derive"] }
serde_json = "=1.0.154"
tracing = "=0.1.44"
