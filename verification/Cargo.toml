[package]
name = "coffasm"
version = "0.1.0"
edition = "2021"
publish = false

[dependencies]
nom = "7"
chrono = { version = "0.4", default-features = false, features = ["clock"] }
