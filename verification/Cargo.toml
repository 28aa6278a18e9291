[package]
name = "rozvp"
version = "0.1.0"
edition = "2021"
publish = false

[dependencies]
rand = "*"
serde = { version = "*", features = ["derive"] }
ron = "*"
anyhow = "*"
directories = "*"
fluent-bundle = "*"
unic-langid = "*"
