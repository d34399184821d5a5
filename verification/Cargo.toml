[package]
name = "greptime"
version = "0.1.0"
edition = "2021"
publish = false

[dependencies]
hex = "=0.4.3"
arrow = { version = "=60.0.0", default-features = false }
sqlparser = "=0.63.0"
futures = "=0.3.34"
serde = { version = "1", features = ["derive"] }
serde_json = "1"
