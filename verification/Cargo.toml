[package]
name = "solana_test_setup"
version = "0.1.0"
edition = "2021"
publish = false

[dependencies]
toml_edit = "*"
clap = { version = "*", features = ["derive"] }
serde = { version = "*", features = ["derive"] }
toml = "*"
ureq = "*"
zip = { version = "*", default-features = false, features = ["deflate"] }
