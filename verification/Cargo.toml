[package]
name = "omnicompute"
version = "0.1.0"
edition = "2021"
publish = false

[dependencies]
aes-gcm = "0.10"
rand = "0.8"
anyhow = "1"
bincode = "1"
serde = { version = "1", features = ["derive"] }
clap = { version = "4", features = ["derive"] }
colored = "2"
indicatif = "0.17"
tokio = { version = "1", features = ["macros", "rt-multi-thread", "sync", "time"] }
dashmap = "5"
crossbeam = "0.8"
once_cell = "1"
parking_lot = "0.12"
tracing = "0.1"
tracing-subscriber = { version = "0.3", features = ["env-filter"] }
libc = "0.2"
