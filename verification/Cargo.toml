[package]
name = "vita49"
version = "0.1.0"
edition = "2021"
publish = false

[dependencies]
deku = "*"
serde = { version = "*", features = ["derive"] }
