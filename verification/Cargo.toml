[package]
name = "mpsgu"
version = "0.1.0"
edition = "2021"
publish = false

[dependencies]
dirs = "5"
serde = { version = "1", features = ["derive"] }
serde_json = "1"
gtk4 = "0.7"
arboard = "3"
