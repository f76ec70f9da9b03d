[package]
name = "manifest_verifier"
version = "0.1.0"
edition = "2021"
publish = false

[dependencies]
clap = { version = "*", features = ["derive"] }
marked-yaml = { version = "*", features = ["serde"] }
serde = { version = "*", features = ["derive"] }
thiserror = "*"
urlencoding = "*"
