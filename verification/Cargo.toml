[package]
name = "game"
version = "0.1.0"
edition = "2021"
publish = false

[dependencies]
fixedbitset = "0.4"
macroquad = { version = "0.4", default-features = false }
