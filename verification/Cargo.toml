[package]
name = "teahub"
version = "0.1.0"
edition = "2021"
publish = false

[dependencies]
http_req = "*"
serde = "1"
serde_derive = "1"
serde_json = "1"
toml = "*"
