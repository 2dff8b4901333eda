[package]
name = "ledger"
version = "0.1.0"
edition = "2021"
publish = false

[dependencies]
rust_decimal = "*"
tokio = { version = "*", features = ["full"] }
tokio-stream = "*"
csv-async = { version = "*", features = ["tokio"] }
serde = { version = "*", features = ["derive"] }
serde_derive = "*"
