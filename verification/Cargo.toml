[package]
name = "charybdis_core"
version = "0.1.0"
edition = "2021"
publish = false

[dependencies]
regex = "=1.13.1"
serde = { version = "=1.0.229", features = ["derive"] }
serde_json = "=1.0.154"
clap = { version = "=4.6.7", features = ["derive"] }
colored = "=2.2.0"
strip-ansi-escapes = "=0.2.1"
tokio = { version = "=1.54.1", features = ["macros", "rt-multi-thread"] }
syn = { version = "=2.0.119", features = ["full", "extra-traits"] }
quote = "=1.0.47"
proc-macro2 = "=1.0.107"
scylla = { version = "=1.9.0", features = ["openssl-010"] }
openssl = "=0.10.82"
