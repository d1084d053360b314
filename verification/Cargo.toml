[package]
name = "nexis"
version = "0.1.0"
edition = "2021"
publish = false

[dependencies]
blake3 = "1"
petgraph = "0.6"
num_cpus = "1"
merge = "*"
serde = { version = "1", features = ["derive"] }
serde_json = "1"
toml = "0.8"
clap = { version = "4", features = ["derive"] }
tokio = { version = "1", features = ["rt-multi-thread", "macros", "process", "fs", "io-util", "sync", "time", "signal"] }
mio = { version = "1", features = ["os-poll", "os-ext", "net"] }
libc = "0.2"
signal-hook = "0.3"
signal-hook-mio = { version = "0.2", features = ["support-v1_0"] }
log = "0.4"
tracing = "0.1"
tracing-subscriber = "0.3"
owo-colors = "4"
chrono = "0.4"
redb = "2"
bincode = "1"
anyhow = "1"
thiserror = "1"
