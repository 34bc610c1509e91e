[package]
name = "sepolicy"
version = "0.1.0"
edition = "2021"
publish = false

[dependencies]
anyhow = "=1.0.104"

[dev-dependencies]
nom = "=8.0.0"
