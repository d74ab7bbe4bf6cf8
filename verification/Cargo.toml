[package]
name = "miner_supervisor"
version = "0.1.0"
edition = "2021"
publish = false

[dependencies]
num_cpus = "*"
serde = { version = "*", features = ["derive"] }
