[package]
name = "sugarfunge_api"
version = "0.1.0"
edition = "2021"
publish = false

[dependencies]
serde = { version = "=1.0.229", features = ["derive"] }
serde_json = "=1.0.154"
hex = "=0.4.3"
url = "=2.5.8"
parity-scale-codec = "=3.7.5"
sp-core = "=43.0.0"
sp-crypto-hashing = "=0.1.0"
subxt = { version = "=0.51.1", default-features = false }
