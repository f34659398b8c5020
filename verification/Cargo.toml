[package]
name = "greyhound"
version = "0.1.0"
edition = "2021"
publish = false

[dependencies]
merlin = "*"
sha3 = "*"
serde = { version = "*", features = ["derive"] }
