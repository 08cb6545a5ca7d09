[package]
name = "clangd_gen"
version = "0.1.0"
edition = "2021"
publish = false

[dependencies]
anyhow = "*"
globset = "*"
serde = { version = "*", features = ["derive"] }
serde_json = "*"
serde_yaml = "*"
structopt = "*"
