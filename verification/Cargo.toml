[package]
name = "cargo-nuttx"
version = "0.1.0"
edition = "2021"
publish = false

[dependencies]
camino = "1"
cargo_metadata = "*"
clap = { version = "4", features = ["derive"] }
convert_case = "*"
dirs = "*"
flate2 = "1"
serde = { version = "1", features = ["derive"] }
serde_json = "1"
tar = "0.4"
ureq = "3"
