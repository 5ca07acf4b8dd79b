[package]
name = "rcfe"
version = "0.1.0"
edition = "2021"
publish = false

[dependencies]
tonic = "*"
tonic-prost = "*"
prost = "*"
tokio = { version = "1", features = ["sync", "rt", "macros"] }
thiserror = "*"
