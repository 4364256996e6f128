[package]
name = "stampver"
version = "0.1.0"
edition = "2021"
publish = false

[dependencies]
chrono = "0.4"
clap = { version = "3", features = ["derive"] }
colored = "2"
evalexpr = "7"
json5_nodes = "*"
regex = "1"
walkdir = "2"

[dev-dependencies]
tempfile = "3"
