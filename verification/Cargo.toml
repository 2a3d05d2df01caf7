[package]
name = "tera_cli"
version = "0.1.0"
edition = "2021"
publish = false

[dependencies]
toml = "0.8"
serde_json = "1"
serde_yaml = "0.9"
tera = "1"
