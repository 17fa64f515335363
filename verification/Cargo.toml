[package]
name = "single_player"
version = "0.1.0"
edition = "2021"
publish = false

[dependencies]
perigee = "*"
serde = { version = "1", features = ["derive"] }
getset = "*"
