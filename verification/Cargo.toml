[package]
name = "soap"
version = "0.1.0"
edition = "2021"
publish = false

[dependencies]
pathfinding = "*"
serde_json = "*"
anyhow = "*"
