[package]
name = "snarkos_network"
version = "0.1.0"
edition = "2021"
publish = false

[dependencies]
bytes = "1"
num_cpus = "1"
rayon = "1"
once_cell = "1"
tokio = { version = "1", features = ["rt"] }
tokio-util = { version = "0.7", features = ["codec"] }
