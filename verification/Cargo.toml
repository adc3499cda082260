[package]
name = "vanguard"
version = "0.1.0"
edition = "2021"
publish = false

[dependencies]
tokio = { version = "=1.54.1", features = ["sync", "rt", "rt-multi-thread", "macros", "fs", "process", "io-util", "time"] }
tokio-util = "=0.7.20"
serde = { version = "=1.0.229", features = ["derive"] }
serde_json = "=1.0.154"
reqwest = { version = "=0.12.28", default-features = false }
sqlx = { version = "=0.8.6", default-features = false, features = ["sqlite", "runtime-tokio"] }
arboard = { version = "=3.7.0", default-features = false }
winreg = "=0.52.0"
librqbit = { version = "=8.1.1", default-features = false, features = ["rust-tls"] }
