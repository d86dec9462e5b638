[package]
name = "geoip_filter"
version = "0.1.0"
edition = "2021"
publish = false

[dependencies]
maxminddb = "*"
url = "*"
serde = { version = "*", features = ["derive"] }
serde_json = "*"
proxy-wasm = "*"
