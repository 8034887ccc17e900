[package]
name = "relative_uda"
version = "0.1.0"
edition = "2021"
publish = false

[dependencies]
anyhow = "1"
tasklib = "*"

[dev-dependencies]
serde_json = "1"
