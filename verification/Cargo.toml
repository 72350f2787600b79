[package]
name = "battlesnake"
version = "0.1.0"
edition = "2021"
publish = false

[dependencies]
log = "0.4"
rand = "0.8"
rocket_contrib = { version = "0.4", default-features = false, features = ["json"] }
