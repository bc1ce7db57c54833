[package]
name = "hymod"
version = "0.1.0"
edition = "2021"
publish = false

[dependencies]
anyhow = "*"
clap = { version = "*", features = ["derive"] }
colored = "*"
dialoguer = "*"
dirs = "*"
duct = "=1.1.2"
fs-err = "=3.3.2"
serde = { version = "*", features = ["derive"] }
serde_json = "=1.0.151"
serde_yaml = "*"
walkdir = "*"
zip = { version = "=8.6.0", default-features = false, features = ["deflate"] }

[dev-dependencies]
tempfile = "*"
