[package]
name = "openrpsee"
version = "0.1.0"
edition = "2021"
publish = false

[dependencies]
documented = "*"
quote = "1"
schemars = "1"
serde = { version = "1", features = ["derive"] }
serde_json = "1"
syn = { version = "2", features = ["full"] }
