[package]
name = "hex_go"
version = "0.1.0"
edition = "2021"
publish = false

[dependencies]
serde = { version = "1", features = ["derive"] }
serde_json = "1"
sys-locale = "*"
rand = "*"
clap = { version = "4", features = ["derive"] }
clap-cargo = "*"
bincode = "1"
zstd = "*"
crossbeam-channel = "*"
rayon = "*"
