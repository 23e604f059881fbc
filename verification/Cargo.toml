[package]
name = "optee_sdk"
version = "0.1.0"
edition = "2021"
publish = false

[dependencies]
anyhow = "1"
cargo_metadata = "0.18"
clap = { version = "4", features = ["derive"] }
goblin = "0.8"
proc-macro2 = "1"
quote = "1"
serde_json = "1"
tempfile = "3"
uuid = "1"
