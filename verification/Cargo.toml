[package]
name = "jujik"
version = "0.1.0"
edition = "2021"
publish = false

[dependencies]
chrono = "0.4"
log = "0.4"
nix = { version = "*", features = ["user"] }
serde = { version = "1", features = ["derive"] }
serde_json = "1"
simplelog = "0.12"
