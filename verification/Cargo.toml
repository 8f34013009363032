[package]
name = "lumi_core"
version = "0.1.0"
edition = "2021"
publish = false

[dependencies]
serde = { version = "*", features = ["derive"] }
serde_yaml = "*"
fs2 = "*"
rayon = "*"
