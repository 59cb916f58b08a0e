[package]
name = "multisql"
version = "0.1.0"
edition = "2021"
publish = false

[dependencies]
chrono = "0.4"
serde = { version = "1", features = ["derive"] }
bincode = "1"
sled = "0.34"
sqlparser = "*"
