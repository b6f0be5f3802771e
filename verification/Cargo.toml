[package]
name = "pp_bench"
version = "0.1.0"
edition = "2021"
publish = false

[dependencies]
bincode = "=1.3.3"
clap = { version = "=4.6.7", features = ["derive"] }
eyre = "=0.6.14"
hex = "=0.4.3"
openvm = "=2.0.2"
openvm-bigint-guest = { version = "=2.0.2", default-features = false }
openvm-circuit = { version = "=2.0.2", default-features = false }
openvm-keccak256-circuit = { version = "=2.0.2", default-features = false }
openvm-keccak256-guest = { version = "=2.0.2", default-features = false }
openvm-keccak256-transpiler = { version = "=2.0.2", default-features = false }
openvm-rv32im-circuit = { version = "=2.0.2", default-features = false }
openvm-rv32im-transpiler = { version = "=2.0.2", default-features = false }
openvm-sdk = "=2.0.2"
openvm-stark-sdk = { version = "=2.0.1", default-features = false }
openvm-transpiler = { version = "=2.0.2", default-features = false }
serde = { version = "=1.0.229", features = ["derive"] }
serde_json = "=1.0.154"
tracing = "=0.1.44"
tracing-subscriber = { version = "=0.3.23", features = ["env-filter"] }
uuid = { version = "=1.29.0", features = ["v4"] }
