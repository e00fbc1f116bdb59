[package]
name = "playable_bosses"
version = "0.1.0"
edition = "2021"
publish = false

[dependencies]
prc-rs = "*"
serde = { version = "1", features = ["derive"] }
toml = "*"
once_cell = "1"
parking_lot = "*"
