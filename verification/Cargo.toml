[package]
name = "cargo_lints"
version = "0.1.0"
edition = "2021"
publish = false

[dependencies]
eyre = "*"
serde = { version = "*", features = ["derive"] }
structopt = "*"
toml = { version = "*", features = ["preserve_order"] }
