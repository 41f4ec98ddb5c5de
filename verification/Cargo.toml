[package]
name = "hexagon_ort"
version = "0.1.0"
edition = "2021"
publish = false

[dependencies]
hexagon = "0.1.2"
rmp-serde = "1"
serde_json = "1"
smallvec = "1"
