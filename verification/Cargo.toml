[package]
name = "forrs"
version = "0.1.0"
edition = "2021"
publish = false

[dependencies]
rocket = "0.5"
serde = { version = "1", features = ["derive"] }
tokio = { version = "1", features = ["macros", "rt-multi-thread"] }
tokio-postgres = "0.7"
toml = "*"
