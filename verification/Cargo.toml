[package]
name = "ak500_digital"
version = "0.1.0"
edition = "2021"
publish = false

[dependencies]
anyhow = "1"
hidapi = "2"
serde = { version = "1", features = ["derive"] }
sysinfo = "0.30"
toml = "0.8"
