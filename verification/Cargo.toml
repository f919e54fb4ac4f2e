[package]
name = "paxos_replica"
version = "0.1.0"
edition = "2021"
publish = false

[dependencies]
anyhow = "*"
futures = "*"
serde = { version = "*", features = ["derive"] }
tarpc = { version = "*", features = ["full"] }
tokio = { version = "*", features = ["full"] }
