[package]
name = "plasma_furnace"
version = "0.1.0"
edition = "2021"
publish = false

[dependencies]
log = "0.4"
ndarray = { version = "0.16", features = ["serde"] }
serde = { version = "1", features = ["derive"] }
serde_json = "1"
