[package]
name = "ledbetter_client"
version = "0.1.0"
edition = "2021"
publish = false

[dependencies]
base64 = "0.13"
clap = "2"
crossterm = "0.17"
derive_more = "0.99"
env_logger = "0.7"
gpio-cdev = "*"
log = "0.4"
palette = "0.6"
rand = "0.7"
rs_ws281x = "*"
serde = { version = "1", features = ["derive"] }
serde_json = { version = "1", features = ["raw_value"] }
smart-leds-trait = "0.2"
toml = "0.5"
wasm3 = "*"
websocket = { version = "0.26", default-features = false, features = ["sync"] }
