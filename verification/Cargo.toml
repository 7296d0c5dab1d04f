[package]
name = "rust_in_peace"
version = "0.1.0"
edition = "2021"
publish = false

[dependencies]
rand = "0.8"
serde = { version = "1", features = ["derive"] }
ron = "*"
clearscreen = "*"
regex = "*"
