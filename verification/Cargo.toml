[package]
name = "williams_exec"
version = "0.1.0"
edition = "2021"
publish = false

[dependencies]
serde_json = "*"
hex = "*"
rayon = "*"
revm = { version = "*", default-features = false, features = ["std"] }
