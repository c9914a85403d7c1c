[package]
name = "suzu"
version = "0.1.0"
edition = "2021"
publish = false

[dependencies]
rand = "0.8"
pathfinding = "4"
toml = "0.5"
serde = { version = "1", features = ["derive"] }
serde_json = "1"
tiled = "0.9"
