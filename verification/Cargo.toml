[package]
name = "screeps_body_utils"
version = "0.1.0"
edition = "2021"
publish = false

[dependencies]
screeps-game-api = "*"
const_soft_float = "*"
serde = { version = "1", features = ["derive"] }

[dev-dependencies]
enum-iterator = "*"
