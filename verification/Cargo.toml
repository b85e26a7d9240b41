[package]
name = "hft_bot"
version = "0.1.0"
edition = "2021"
publish = false

[dependencies]
crossbeam-queue = "0.3"
memmap2 = "0.9"
serde_json = "1"
tokio = { version = "1", features = ["rt-multi-thread", "macros", "net", "fs", "io-util", "time"] }
tokio-tungstenite = "0.21"
futures-util = { version = "0.3", features = ["sink"] }
url = "2"
tracing = "0.1"
anyhow = "1"
libc = "0.2"
nix = { version = "0.27", features = ["sched"] }
io-uring = "0.6"
once_cell = "1"
pyo3 = "0.20"
