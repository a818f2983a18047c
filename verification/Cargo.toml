[package]
name = "colour_math_ng"
version = "0.1.0"
edition = "2021"
publish = false

[dependencies]
num-traits = "0.2"
serde = { version = "1", features = ["derive"] }
