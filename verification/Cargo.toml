[package]
name = "userd"
version = "0.1.0"
edition = "2021"
publish = false

[dependencies]
argon2 = { version = "0.5", features = ["std"] }
serde = { version = "1", features = ["derive"] }
toml = "0.8"
thiserror = "1"
