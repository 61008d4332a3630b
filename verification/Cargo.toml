[package]
name = "circom_c_backend"
version = "0.1.0"
edition = "2021"
publish = false

[dependencies]
num-bigint = "0.4"
serde = { version = "1", features = ["derive"] }
bincode = "1"
ansi_term = "0.12"
