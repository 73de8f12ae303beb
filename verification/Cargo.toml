[package]
name = "conc_map_bench"
version = "0.1.0"
edition = "2021"
publish = false

[dependencies]
ahash = "*"
bustle = "=0.5.1"
clap = { version = "4", features = ["derive"] }
crossbeam-epoch = "=0.9.21"
crossbeam-skiplist = "=0.1.3"
csv = "*"
dashmap = "=5.5.3"
evmap = "*"
flurry = "=0.5.2"
num_cpus = "=1.17.0"
parking_lot = "=0.12.5"
seize = "=0.3.3"
serde = { version = "1", features = ["derive"] }
toml = "*"
