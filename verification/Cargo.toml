[package]
name = "move_value"
version = "0.1.0"
edition = "2021"
publish = false

[dependencies]
anyhow = "1"
bcs = "0.1"
fasthash = "0.4"
serde = { version = "1", features = ["derive"] }
