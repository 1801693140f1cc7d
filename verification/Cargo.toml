[package]
name = "gcpx"
version = "0.1.0"
edition = "2021"
publish = false

[dependencies]
anyhow = "*"
clap = { version = "*", features = ["derive"] }
clap_complete = "*"
dialoguer = "*"
dirs = "*"
serde = { version = "*", features = ["derive"] }
serde_json = "*"
