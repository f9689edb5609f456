[package]
name = "chess_relay"
version = "0.1.0"
edition = "2021"
publish = false

[dependencies]
ggez = "0.6"

[dev-dependencies]
bincode = "1"
