[package]
name = "rusty_farm"
version = "0.1.0"
edition = "2021"
publish = false

[dependencies]
rand = "0.8"
ron = "0.8"
serde = { version = "1", features = ["derive"] }
time = { version = "0.3", features = ["local-offset"] }
